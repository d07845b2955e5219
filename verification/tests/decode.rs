use forecast::decode::{decode, read_number, read_text, read_whole, DecodeError};
use forecast::json::Json;
use forecast::number::Numeral;
use forecast::model::{City, Clouds, Coord, Main, Rain, Sys, Weather, WeatherData, WeatherDataList, Wind};
use forecast::parse::parse;

const MAIN: &str = r#"{"temp":1.5,"feels_like":2.5,"temp_min":3.5,"temp_max":4.5,"pressure":5,"sea_level":6,"grnd_level":7,"humidity":8,"temp_kf":9.5}"#;
const WEATHER: &str = r#"{"id":500,"main":"Rain","description":"light rain","icon":"10n"}"#;
const CITY: &str = r#"{"id":2643743,"name":"London","coord":{"lat":51.5,"lon":-0.25},"country":"GB","population":1000000,"timezone":3600,"sunrise":10,"sunset":20}"#;

fn fraction(x: f64) -> Numeral {
    Numeral::Real(serde_json::Number::from_f64(x).unwrap())
}

fn tree(text: &str) -> Json {
    parse(text.as_bytes()).unwrap()
}

fn entry_text(rain: &str) -> String {
    format!(
        r#"{{"dt":1,"main":{},"weather":[{}],"clouds":{{"all":75}},"wind":{{"speed":4.5,"deg":270,"gust":7.25}},"visibility":9000,"pop":0.5{},"sys":{{"pod":"n"}},"dt_txt":"2024-01-01 00:00:00"}}"#,
        MAIN, WEATHER, rain
    )
}

fn body_text(entries: &str) -> String {
    format!(r#"{{"cod":"200","message":0.5,"cnt":40,"list":[{}],"city":{}}}"#, entries, CITY)
}

fn without(text: &str, name: &str) -> Json {
    match tree(text) {
        Json::Record(members) => {
            let before = members.len();
            let kept: Vec<_> = members.into_iter().filter(|m| m.name != name).collect();
            assert_eq!(kept.len() + 1, before);
            Json::Record(kept)
        }
        _ => unreachable!(),
    }
}

fn expected_main() -> Main {
    Main {
        temp: fraction(1.5),
        feels_like: fraction(2.5),
        temp_min: fraction(3.5),
        temp_max: fraction(4.5),
        pressure: 5,
        sea_level: 6,
        grnd_level: 7,
        humidity: 8,
        temp_kf: fraction(9.5),
    }
}

fn expected_weather() -> Weather {
    Weather {
        id: 500,
        main: "Rain".to_string(),
        description: "light rain".to_string(),
        icon: "10n".to_string(),
    }
}

fn expected_city() -> City {
    City {
        id: 2643743,
        name: "London".to_string(),
        coord: Coord { lat: fraction(51.5), lon: fraction(-0.25) },
        country: "GB".to_string(),
        population: 1000000,
        timezone: 3600,
        sunrise: 10,
        sunset: 20,
    }
}

fn expected_entry(rain: Option<Rain>) -> WeatherDataList {
    WeatherDataList {
        dt: 1,
        main: expected_main(),
        weather: vec![expected_weather()],
        clouds: Clouds { all: 75 },
        wind: Wind { speed: fraction(4.5), deg: 270, gust: fraction(7.25) },
        visibility: 9000,
        pop: fraction(0.5),
        rain,
        sys: Sys { pod: "n".to_string() },
        dt_txt: "2024-01-01 00:00:00".to_string(),
    }
}

#[test]
fn each_record_is_read_by_the_names_of_its_members() {
    assert_eq!(Main::from_json(&tree(MAIN)), Ok(expected_main()));
    assert_eq!(Weather::from_json(&tree(WEATHER)), Ok(expected_weather()));
    assert_eq!(City::from_json(&tree(CITY)), Ok(expected_city()));
    assert_eq!(Clouds::from_json(&tree(r#"{"all":75}"#)), Ok(Clouds { all: 75 }));
    assert_eq!(
        Wind::from_json(&tree(r#"{"gust":7.25,"deg":270,"speed":4.5}"#)),
        Ok(Wind { speed: fraction(4.5), deg: 270, gust: fraction(7.25) })
    );
    assert_eq!(Sys::from_json(&tree(r#"{"pod":"d"}"#)), Ok(Sys { pod: "d".to_string() }));
    assert_eq!(
        Coord::from_json(&tree(r#"{"lon":2,"lat":1.5}"#)),
        Ok(Coord { lat: fraction(1.5), lon: Numeral::Whole(2) })
    );
    assert_eq!(Rain::from_json(&tree(r#"{"3h":0.25}"#)), Ok(Rain { h3: fraction(0.25) }));
}

#[test]
fn a_whole_body_is_read() {
    let data = decode(body_text(&entry_text("")).as_bytes()).unwrap();
    assert_eq!(
        data,
        WeatherData {
            cod: "200".to_string(),
            message: fraction(0.5),
            cnt: 40,
            list: vec![expected_entry(None)],
            city: expected_city(),
        }
    );
}

#[test]
fn cnt_need_not_be_the_length_of_the_list() {
    let none = decode(body_text("").as_bytes()).unwrap();
    assert_eq!(none.cnt, 40);
    assert!(none.list.is_empty());
    let two = format!("{},{}", entry_text(""), entry_text(r#","rain":{"3h":1}"#));
    let data = decode(body_text(&two).as_bytes()).unwrap();
    assert_eq!(data.cnt, 40);
    assert_eq!(data.list, vec![expected_entry(None), expected_entry(Some(Rain { h3: Numeral::Whole(1) }))]);
}

#[test]
fn rain_is_read_from_the_member_named_3h() {
    let with = WeatherDataList::from_json(&tree(&entry_text(r#","rain":{"3h":2.75}"#)));
    assert_eq!(with, Ok(expected_entry(Some(Rain { h3: fraction(2.75) }))));
    assert_eq!(
        Rain::read_at(&tree(r#"{"rain":{"3h":2.75}}"#)),
        Ok(Some(Rain { h3: fraction(2.75) }))
    );
}

#[test]
fn an_entry_without_rain_or_with_null_rain_has_none() {
    assert_eq!(WeatherDataList::from_json(&tree(&entry_text(""))), Ok(expected_entry(None)));
    assert_eq!(
        WeatherDataList::from_json(&tree(&entry_text(r#","rain":null"#))),
        Ok(expected_entry(None))
    );
    assert_eq!(Rain::read_at(&tree("{}")), Ok(None));
    assert_eq!(Rain::read_at(&tree(r#"{"rain":null}"#)), Ok(None));
}

#[test]
fn rain_under_another_name_or_of_another_kind_fails() {
    assert_eq!(Rain::from_json(&tree(r#"{"h3":2.75}"#)), Err(DecodeError));
    assert_eq!(Rain::from_json(&tree(r#"{"3h":"2.75"}"#)), Err(DecodeError));
    assert_eq!(Rain::read_at(&tree(r#"{"rain":{"h3":2.75}}"#)), Err(DecodeError));
    assert_eq!(Rain::read_at(&tree(r#"{"rain":{}}"#)), Err(DecodeError));
    assert_eq!(Rain::read_at(&tree(r#"{"rain":3}"#)), Err(DecodeError));
    assert_eq!(Rain::read_at(&tree(r#"{"rain":false}"#)), Err(DecodeError));
    assert_eq!(
        WeatherDataList::from_json(&tree(&entry_text(r#","rain":{"h3":2.75}"#))),
        Err(DecodeError)
    );
}

#[test]
fn a_body_without_city_fails() {
    let text = r#"{"cod":"200","message":0,"cnt":0,"list":[]}"#;
    assert_eq!(decode(text.as_bytes()), Err(DecodeError));
}

#[test]
fn a_forecast_needs_each_of_its_members() {
    let text = body_text(&entry_text(""));
    assert!(WeatherData::from_json(&tree(&text)).is_ok());
    for name in ["cod", "message", "cnt", "list", "city"] {
        assert_eq!(WeatherData::from_json(&without(&text, name)), Err(DecodeError), "{}", name);
    }
}

#[test]
fn an_entry_needs_each_of_its_members_but_rain() {
    let text = entry_text(r#","rain":{"3h":1.5}"#);
    for name in ["dt", "main", "weather", "clouds", "wind", "visibility", "pop", "sys", "dt_txt"] {
        assert_eq!(WeatherDataList::from_json(&without(&text, name)), Err(DecodeError), "{}", name);
    }
    assert_eq!(WeatherDataList::from_json(&without(&text, "rain")), Ok(expected_entry(None)));
}

#[test]
fn the_smaller_records_need_each_of_their_members() {
    for name in ["temp", "feels_like", "temp_min", "temp_max", "pressure", "sea_level", "grnd_level", "humidity", "temp_kf"] {
        assert_eq!(Main::from_json(&without(MAIN, name)), Err(DecodeError), "{}", name);
    }
    for name in ["id", "main", "description", "icon"] {
        assert_eq!(Weather::from_json(&without(WEATHER, name)), Err(DecodeError), "{}", name);
    }
    for name in ["id", "name", "coord", "country", "population", "timezone", "sunrise", "sunset"] {
        assert_eq!(City::from_json(&without(CITY, name)), Err(DecodeError), "{}", name);
    }
    for name in ["speed", "deg", "gust"] {
        let wind = r#"{"speed":4.5,"deg":270,"gust":7.25}"#;
        assert_eq!(Wind::from_json(&without(wind, name)), Err(DecodeError), "{}", name);
    }
    for name in ["lat", "lon"] {
        assert_eq!(Coord::from_json(&without(r#"{"lat":1,"lon":2}"#, name)), Err(DecodeError));
    }
    assert_eq!(Clouds::from_json(&tree("{}")), Err(DecodeError));
    assert_eq!(Sys::from_json(&tree("{}")), Err(DecodeError));
    assert_eq!(Rain::from_json(&tree("{}")), Err(DecodeError));
}

#[test]
fn a_member_in_a_nested_record_that_is_missing_fails_the_whole() {
    let text = body_text(&entry_text("")).replace(r#""lon":-0.25"#, r#""lng":-0.25"#);
    assert_eq!(decode(text.as_bytes()), Err(DecodeError));
    let text = body_text(&entry_text("")).replace(r#""icon":"10n""#, r#""ico":"10n""#);
    assert_eq!(decode(text.as_bytes()), Err(DecodeError));
    let second_bad = format!("{},{}", entry_text(""), entry_text("").replace(r#""pod""#, r#""pot""#));
    assert_eq!(decode(body_text(&second_bad).as_bytes()), Err(DecodeError));
}

#[test]
fn members_of_other_names_are_passed_over() {
    let plain = decode(body_text(&entry_text("")).as_bytes()).unwrap();
    let text = format!(
        r#"{{"extra":[1,{{"cod":5}}],"cod":"200","message":0.5,"new":null,"cnt":40,"list":[{}],"city":{},"zzz":{{"a":{{"b":[]}}}}}}"#,
        entry_text(r#","snow":{"3h":1},"uv":0.1"#),
        CITY.replace(r#""country""#, r#""region":"x","country""#)
    );
    assert_eq!(decode(text.as_bytes()), Ok(plain));
    assert_eq!(
        Clouds::from_json(&tree(r#"{"today":1,"all":75,"All":2,"al":3,"alll":4}"#)),
        Ok(Clouds { all: 75 })
    );
}

#[test]
fn a_value_of_another_kind_fails() {
    for bad in [r#""75""#, "75.5", "null", "true", "[75]", r#"{"all":75}"#, "7.5e1", "9223372036854775808", "-0"] {
        let text = format!(r#"{{"all":{}}}"#, bad);
        assert_eq!(Clouds::from_json(&tree(&text)), Err(DecodeError), "{}", bad);
    }
    for bad in ["1", "null", "true", r#"["d"]"#, r#"{"pod":"d"}"#] {
        let text = format!(r#"{{"pod":{}}}"#, bad);
        assert_eq!(Sys::from_json(&tree(&text)), Err(DecodeError), "{}", bad);
    }
    for bad in [r#""1.5""#, "null", "false", "[1.5]", "{}"] {
        let text = format!(r#"{{"3h":{}}}"#, bad);
        assert_eq!(Rain::from_json(&tree(&text)), Err(DecodeError), "{}", bad);
    }
    for bad in ["{}", "null", r#""""#, "0", WEATHER] {
        let text = entry_text("").replace(&format!("[{}]", WEATHER), bad);
        assert_eq!(WeatherDataList::from_json(&tree(&text)), Err(DecodeError), "{}", bad);
    }
    for bad in ["[]", "null", r#""London""#, "1"] {
        let text = body_text("").replace(CITY, bad);
        assert_eq!(decode(text.as_bytes()), Err(DecodeError), "{}", bad);
    }
}

#[test]
fn an_answer_that_tells_of_a_failure_holds_no_forecast() {
    let text = r#"{"cod":401,"message":"Invalid API key. Please see https://openweathermap.org/faq#error401 for more info."}"#;
    assert_eq!(decode(text.as_bytes()), Err(DecodeError));
    let text = r#"{"cod":"404","message":"city not found"}"#;
    assert_eq!(decode(text.as_bytes()), Err(DecodeError));
    let text = format!(r#"{{"cod":"404","message":0,"cnt":0,"list":[],"city":{}}}"#, CITY);
    assert_eq!(decode(text.as_bytes()).map(|data| data.cod), Ok("404".to_string()));
}

#[test]
fn what_is_no_record_holds_no_record() {
    for bad in ["null", "true", "1", r#""x""#, "[]", "[75]", r#"[{"all":75}]"#] {
        assert_eq!(Clouds::from_json(&tree(bad)), Err(DecodeError), "{}", bad);
        assert_eq!(WeatherData::from_json(&tree(bad)), Err(DecodeError), "{}", bad);
    }
    assert_eq!(decode(b"[]"), Err(DecodeError));
    assert_eq!(decode(b"null"), Err(DecodeError));
}

#[test]
fn what_is_no_json_text_fails() {
    let good = body_text("");
    assert!(decode(good.as_bytes()).is_ok());
    assert!(decode(format!(" \n\t{}\r\n ", good).as_bytes()).is_ok());
    assert_eq!(decode(b""), Err(DecodeError));
    assert_eq!(decode(b"   "), Err(DecodeError));
    assert_eq!(decode(b"{"), Err(DecodeError));
    assert_eq!(decode(b"<html></html>"), Err(DecodeError));
    assert_eq!(decode(good[..good.len() - 1].as_bytes()), Err(DecodeError));
    assert_eq!(decode(format!("{}x", good).as_bytes()), Err(DecodeError));
    assert_eq!(decode(format!("{}{}", good, good).as_bytes()), Err(DecodeError));
    assert_eq!(decode(good.replace("\"cod\"", "cod").as_bytes()), Err(DecodeError));
    assert_eq!(decode(good.replace("\"200\"", "\"\u{1}\"").as_bytes()), Err(DecodeError));
    let mut broken = good.clone().into_bytes();
    let at = good.find("London").unwrap();
    broken[at] = 0xff;
    assert_eq!(decode(&broken), Err(DecodeError));
    assert_eq!(parse(b"{} {}"), Err(DecodeError));
}

#[test]
fn a_real_member_takes_any_number_and_a_whole_member_only_whole_ones() {
    let doc = tree(r#"{"a":3,"b":-3,"c":3.0,"d":1e2,"e":18446744073709551615,"f":9223372036854775807,"g":-9223372036854775808,"h":"3"}"#);
    assert_eq!(read_whole(&doc, "a"), Ok(3));
    assert_eq!(read_whole(&doc, "b"), Ok(-3));
    assert_eq!(read_whole(&doc, "c"), Err(DecodeError));
    assert_eq!(read_whole(&doc, "d"), Err(DecodeError));
    assert_eq!(read_whole(&doc, "e"), Err(DecodeError));
    assert_eq!(read_whole(&doc, "f"), Ok(i64::MAX));
    assert_eq!(read_whole(&doc, "g"), Ok(i64::MIN));
    assert_eq!(read_whole(&doc, "h"), Err(DecodeError));
    assert_eq!(read_whole(&doc, "i"), Err(DecodeError));
    assert_eq!(read_number(&doc, "a"), Ok(Numeral::Whole(3)));
    assert_eq!(read_number(&doc, "b"), Ok(Numeral::Whole(-3)));
    assert_eq!(read_number(&doc, "c"), Ok(fraction(3.0)));
    assert_eq!(read_number(&doc, "d"), Ok(fraction(100.0)));
    assert_eq!(read_number(&doc, "e"), Ok(Numeral::Real(serde_json::Number::from(u64::MAX))));
    assert_eq!(read_number(&doc, "h"), Err(DecodeError));
    assert_eq!(read_number(&doc, "i"), Err(DecodeError));
    assert_eq!(read_text(&doc, "h"), Ok("3".to_string()));
    assert_eq!(read_text(&doc, "a"), Err(DecodeError));
    assert_eq!(read_text(&doc, "i"), Err(DecodeError));
    assert_eq!(read_text(&tree("[]"), "h"), Err(DecodeError));
}

#[test]
fn lists_are_read_item_by_item_in_order() {
    let three = format!(
        r#"{{"weather":[{},{},{}]}}"#,
        WEATHER,
        WEATHER.replace("500", "501"),
        WEATHER.replace("500", "502")
    );
    let read = WeatherDataList::read_weather(&tree(&three)).unwrap();
    assert_eq!(read.iter().map(|w| w.id).collect::<Vec<_>>(), vec![500, 501, 502]);
    assert_eq!(WeatherDataList::read_weather(&tree(r#"{"weather":[]}"#)), Ok(vec![]));
    let bad_last = format!(r#"{{"weather":[{},{{}}]}}"#, WEATHER);
    assert_eq!(WeatherDataList::read_weather(&tree(&bad_last)), Err(DecodeError));
    assert_eq!(WeatherDataList::read_weather(&tree("{}")), Err(DecodeError));
    assert_eq!(WeatherData::read_list(&tree(r#"{"list":[]}"#)), Ok(vec![]));
    assert_eq!(WeatherData::read_list(&tree(r#"{"list":[1]}"#)), Err(DecodeError));
    assert_eq!(WeatherData::read_list(&tree(r#"{"list":{}}"#)), Err(DecodeError));
    assert_eq!(WeatherData::read_list(&tree(r#"{"lists":[]}"#)), Err(DecodeError));
}
