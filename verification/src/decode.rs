//! Reading a forecast out of a document.
//!
//! Each record is read from a JSON record by the names of its members.
//! A member that a record needs and the document lacks, or holds in another
//! kind, fails the whole reading. Members of other names are passed over.

use crate::json::{Document, Json};
use crate::number::Numeral;
use crate::parse::{parse, parsed};
use crate::model::{
    City, CityView, Clouds, Coord, Main, Rain, Sys, SysView, Weather, WeatherData,
    WeatherDataList, WeatherDataListView, WeatherDataView, WeatherView, Wind,
};
use vstd::prelude::*;

verus! {

/// A document that does not hold a forecast.
#[derive(Debug, Clone, Copy, PartialEq, Eq)]
pub struct DecodeError;

/// The whole number that `doc` holds under `key`.
pub open spec fn whole_at(doc: Document, key: Seq<char>) -> Option<i64> {
    match doc.member(key) {
        Some(value) => value.whole(),
        None => None,
    }
}

/// The number that `doc` holds under `key`.
pub open spec fn number_at(doc: Document, key: Seq<char>) -> Option<Numeral> {
    match doc.member(key) {
        Some(value) => value.number(),
        None => None,
    }
}

/// The text that `doc` holds under `key`.
pub open spec fn text_at(doc: Document, key: Seq<char>) -> Option<Seq<char>> {
    match doc.member(key) {
        Some(value) => value.text(),
        None => None,
    }
}

/// Reads the whole number that `doc` holds under `key`.
pub fn read_whole(doc: &Json, key: &str) -> (read: Result<i64, DecodeError>)
    ensures
        match read {
            Ok(n) => whole_at(doc@, key@) == Some(n),
            Err(_) => whole_at(doc@, key@) is None,
        },
{
    match doc.member(key) {
        Some(value) => match value.whole() {
            Some(n) => Ok(n),
            None => Err(DecodeError),
        },
        None => Err(DecodeError),
    }
}

/// Reads the number that `doc` holds under `key`.
pub fn read_number(doc: &Json, key: &str) -> (read: Result<Numeral, DecodeError>)
    ensures
        match read {
            Ok(n) => number_at(doc@, key@) == Some(n),
            Err(_) => number_at(doc@, key@) is None,
        },
{
    match doc.member(key) {
        Some(value) => match value.number() {
            Some(n) => Ok(n),
            None => Err(DecodeError),
        },
        None => Err(DecodeError),
    }
}

/// Reads the text that `doc` holds under `key`.
pub fn read_text(doc: &Json, key: &str) -> (read: Result<String, DecodeError>)
    ensures
        match read {
            Ok(s) => text_at(doc@, key@) == Some(s@),
            Err(_) => text_at(doc@, key@) is None,
        },
{
    match doc.member(key) {
        Some(value) => match value.text() {
            Some(s) => Ok(s),
            None => Err(DecodeError),
        },
        None => Err(DecodeError),
    }
}

impl Coord {
    /// The names of the members that a point must have.
    pub open spec fn needs(name: Seq<char>) -> bool {
        name == "lat"@ || name == "lon"@
    }

    /// The point that `doc` holds: its `lat` and `lon`, both numbers.
    pub open spec fn decoded(doc: Document) -> Option<Coord> {
        let lat = number_at(doc, "lat"@);
        let lon = number_at(doc, "lon"@);
        if lat is Some && lon is Some {
            Some(Coord { lat: lat.unwrap(), lon: lon.unwrap() })
        } else {
            None
        }
    }

    /// Reads a point out of `doc`, or fails where `doc` holds none.
    pub fn from_json(doc: &Json) -> (read: Result<Coord, DecodeError>)
        ensures
            match read {
                Ok(coord) => Coord::decoded(doc@) == Some(coord),
                Err(_) => Coord::decoded(doc@) is None,
            },
    {
        let lat = read_number(doc, "lat")?;
        let lon = read_number(doc, "lon")?;
        Ok(Coord { lat, lon })
    }
}

impl Clouds {
    /// The names of the members that a cloud cover must have.
    pub open spec fn needs(name: Seq<char>) -> bool {
        name == "all"@
    }

    /// The cloud cover that `doc` holds: its `all`, a whole number.
    pub open spec fn decoded(doc: Document) -> Option<Clouds> {
        match whole_at(doc, "all"@) {
            Some(all) => Some(Clouds { all }),
            None => None,
        }
    }

    /// Reads a cloud cover out of `doc`, or fails where `doc` holds none.
    pub fn from_json(doc: &Json) -> (read: Result<Clouds, DecodeError>)
        ensures
            match read {
                Ok(clouds) => Clouds::decoded(doc@) == Some(clouds),
                Err(_) => Clouds::decoded(doc@) is None,
            },
    {
        let all = read_whole(doc, "all")?;
        Ok(Clouds { all })
    }
}

impl Main {
    /// The names of the members that readings must have.
    pub open spec fn needs(name: Seq<char>) -> bool {
        name == "temp"@ || name == "feels_like"@ || name == "temp_min"@
            || name == "temp_max"@ || name == "pressure"@ || name == "sea_level"@
            || name == "grnd_level"@ || name == "humidity"@ || name == "temp_kf"@
    }

    /// The readings that `doc` holds. The temperatures and `temp_kf` are
    /// numbers; the pressures and the humidity are whole numbers.
    pub open spec fn decoded(doc: Document) -> Option<Main> {
        let temp = number_at(doc, "temp"@);
        let feels_like = number_at(doc, "feels_like"@);
        let temp_min = number_at(doc, "temp_min"@);
        let temp_max = number_at(doc, "temp_max"@);
        let pressure = whole_at(doc, "pressure"@);
        let sea_level = whole_at(doc, "sea_level"@);
        let grnd_level = whole_at(doc, "grnd_level"@);
        let humidity = whole_at(doc, "humidity"@);
        let temp_kf = number_at(doc, "temp_kf"@);
        if temp is Some && feels_like is Some && temp_min is Some && temp_max is Some
            && pressure is Some && sea_level is Some && grnd_level is Some && humidity is Some
            && temp_kf is Some {
            Some(
                Main {
                    temp: temp.unwrap(),
                    feels_like: feels_like.unwrap(),
                    temp_min: temp_min.unwrap(),
                    temp_max: temp_max.unwrap(),
                    pressure: pressure.unwrap(),
                    sea_level: sea_level.unwrap(),
                    grnd_level: grnd_level.unwrap(),
                    humidity: humidity.unwrap(),
                    temp_kf: temp_kf.unwrap(),
                },
            )
        } else {
            None
        }
    }

    /// Reads readings out of `doc`, or fails where `doc` holds none.
    pub fn from_json(doc: &Json) -> (read: Result<Main, DecodeError>)
        ensures
            match read {
                Ok(main) => Main::decoded(doc@) == Some(main),
                Err(_) => Main::decoded(doc@) is None,
            },
    {
        let temp = read_number(doc, "temp")?;
        let feels_like = read_number(doc, "feels_like")?;
        let temp_min = read_number(doc, "temp_min")?;
        let temp_max = read_number(doc, "temp_max")?;
        let pressure = read_whole(doc, "pressure")?;
        let sea_level = read_whole(doc, "sea_level")?;
        let grnd_level = read_whole(doc, "grnd_level")?;
        let humidity = read_whole(doc, "humidity")?;
        let temp_kf = read_number(doc, "temp_kf")?;
        Ok(
            Main {
                temp,
                feels_like,
                temp_min,
                temp_max,
                pressure,
                sea_level,
                grnd_level,
                humidity,
                temp_kf,
            },
        )
    }
}

impl Wind {
    /// The names of the members that a wind must have.
    pub open spec fn needs(name: Seq<char>) -> bool {
        name == "speed"@ || name == "deg"@ || name == "gust"@
    }

    /// The wind that `doc` holds: `speed` and `gust`, numbers, and `deg`, a
    /// whole number.
    pub open spec fn decoded(doc: Document) -> Option<Wind> {
        let speed = number_at(doc, "speed"@);
        let deg = whole_at(doc, "deg"@);
        let gust = number_at(doc, "gust"@);
        if speed is Some && deg is Some && gust is Some {
            Some(Wind { speed: speed.unwrap(), deg: deg.unwrap(), gust: gust.unwrap() })
        } else {
            None
        }
    }

    /// Reads a wind out of `doc`, or fails where `doc` holds none.
    pub fn from_json(doc: &Json) -> (read: Result<Wind, DecodeError>)
        ensures
            match read {
                Ok(wind) => Wind::decoded(doc@) == Some(wind),
                Err(_) => Wind::decoded(doc@) is None,
            },
    {
        let speed = read_number(doc, "speed")?;
        let deg = read_whole(doc, "deg")?;
        let gust = read_number(doc, "gust")?;
        Ok(Wind { speed, deg, gust })
    }
}

impl Rain {
    /// The names of the members that a rain must have.
    pub open spec fn needs(name: Seq<char>) -> bool {
        name == "3h"@
    }

    /// The rain that `doc` holds: its `3h`, a number.
    pub open spec fn decoded(doc: Document) -> Option<Rain> {
        match number_at(doc, "3h"@) {
            Some(h3) => Some(Rain { h3 }),
            None => None,
        }
    }

    /// The rain of a forecast entry. An entry without a `rain` member, or
    /// with `null` there, has none; any other value must hold a rain.
    pub open spec fn decoded_at(doc: Document) -> Option<Option<Rain>> {
        match doc.member("rain"@) {
            None => Some(None),
            Some(Document::Null) => Some(None),
            Some(value) => match Rain::decoded(value) {
                Some(rain) => Some(Some(rain)),
                None => None,
            },
        }
    }

    /// Reads a rain out of `doc`, or fails where `doc` holds none.
    pub fn from_json(doc: &Json) -> (read: Result<Rain, DecodeError>)
        ensures
            match read {
                Ok(rain) => Rain::decoded(doc@) == Some(rain),
                Err(_) => Rain::decoded(doc@) is None,
            },
    {
        let h3 = read_number(doc, "3h")?;
        Ok(Rain { h3 })
    }

    /// Reads the rain of the forecast entry `doc`.
    pub fn read_at(doc: &Json) -> (read: Result<Option<Rain>, DecodeError>)
        ensures
            match read {
                Ok(rain) => Rain::decoded_at(doc@) == Some(rain),
                Err(_) => Rain::decoded_at(doc@) is None,
            },
    {
        match doc.member("rain") {
            None => Ok(None),
            Some(Json::Null) => Ok(None),
            Some(value) => {
                let rain = Rain::from_json(value)?;
                Ok(Some(rain))
            },
        }
    }
}

impl WeatherView {
    /// The names of the members that a phenomenon must have.
    pub open spec fn needs(name: Seq<char>) -> bool {
        name == "id"@ || name == "main"@ || name == "description"@ || name == "icon"@
    }

    /// The phenomenon that `doc` holds: `id`, a whole number, and `main`,
    /// `description` and `icon`, texts.
    pub open spec fn decoded(doc: Document) -> Option<WeatherView> {
        let id = whole_at(doc, "id"@);
        let main = text_at(doc, "main"@);
        let description = text_at(doc, "description"@);
        let icon = text_at(doc, "icon"@);
        if id is Some && main is Some && description is Some && icon is Some {
            Some(
                WeatherView {
                    id: id.unwrap(),
                    main: main.unwrap(),
                    description: description.unwrap(),
                    icon: icon.unwrap(),
                },
            )
        } else {
            None
        }
    }
}

impl Weather {
    /// Reads a phenomenon out of `doc`, or fails where `doc` holds none.
    pub fn from_json(doc: &Json) -> (read: Result<Weather, DecodeError>)
        ensures
            match read {
                Ok(weather) => WeatherView::decoded(doc@) == Some(weather@),
                Err(_) => WeatherView::decoded(doc@) is None,
            },
    {
        let id = read_whole(doc, "id")?;
        let main = read_text(doc, "main")?;
        let description = read_text(doc, "description")?;
        let icon = read_text(doc, "icon")?;
        Ok(Weather { id, main, description, icon })
    }
}

impl SysView {
    /// The names of the members that a part of the day must have.
    pub open spec fn needs(name: Seq<char>) -> bool {
        name == "pod"@
    }

    /// The part of the day that `doc` holds: its `pod`, a text.
    pub open spec fn decoded(doc: Document) -> Option<SysView> {
        match text_at(doc, "pod"@) {
            Some(pod) => Some(SysView { pod }),
            None => None,
        }
    }
}

impl Sys {
    /// Reads a part of the day out of `doc`, or fails where `doc` holds none.
    pub fn from_json(doc: &Json) -> (read: Result<Sys, DecodeError>)
        ensures
            match read {
                Ok(sys) => SysView::decoded(doc@) == Some(sys@),
                Err(_) => SysView::decoded(doc@) is None,
            },
    {
        let pod = read_text(doc, "pod")?;
        Ok(Sys { pod })
    }
}

/// The record that `doc` holds under `key`, read by `read`.
pub open spec fn record_at<T>(
    doc: Document,
    key: Seq<char>,
    read: spec_fn(Document) -> Option<T>,
) -> Option<T> {
    match doc.member(key) {
        Some(value) => read(value),
        None => None,
    }
}

/// The items of a list, each read by `read`; nothing, if one of them cannot be read.
pub open spec fn each<T>(items: Seq<Document>, read: spec_fn(Document) -> Option<T>) -> Option<
    Seq<T>,
> {
    if forall|i: int| 0 <= i < items.len() ==> read(#[trigger] items[i]) is Some {
        Some(items.map_values(|item: Document| read(item).unwrap()))
    } else {
        None
    }
}

/// The list that `doc` holds under `key`, each item read by `read`.
pub open spec fn list_at<T>(
    doc: Document,
    key: Seq<char>,
    read: spec_fn(Document) -> Option<T>,
) -> Option<Seq<T>> {
    match doc.member(key) {
        Some(value) => match value.items() {
            Some(items) => each(items, read),
            None => None,
        },
        None => None,
    }
}

impl CityView {
    /// The names of the members that a place must have.
    pub open spec fn needs(name: Seq<char>) -> bool {
        name == "id"@ || name == "name"@ || name == "coord"@ || name == "country"@
            || name == "population"@ || name == "timezone"@ || name == "sunrise"@
            || name == "sunset"@
    }

    /// The place that `doc` holds: `id`, `population`, `timezone`, `sunrise`
    /// and `sunset`, whole numbers; `name` and `country`, texts; and `coord`,
    /// a point.
    pub open spec fn decoded(doc: Document) -> Option<CityView> {
        let id = whole_at(doc, "id"@);
        let name = text_at(doc, "name"@);
        let coord = record_at(doc, "coord"@, |d: Document| Coord::decoded(d));
        let country = text_at(doc, "country"@);
        let population = whole_at(doc, "population"@);
        let timezone = whole_at(doc, "timezone"@);
        let sunrise = whole_at(doc, "sunrise"@);
        let sunset = whole_at(doc, "sunset"@);
        if id is Some && name is Some && coord is Some && country is Some && population is Some
            && timezone is Some && sunrise is Some && sunset is Some {
            Some(
                CityView {
                    id: id.unwrap(),
                    name: name.unwrap(),
                    coord: coord.unwrap(),
                    country: country.unwrap(),
                    population: population.unwrap(),
                    timezone: timezone.unwrap(),
                    sunrise: sunrise.unwrap(),
                    sunset: sunset.unwrap(),
                },
            )
        } else {
            None
        }
    }
}

impl City {
    /// Reads a place out of `doc`, or fails where `doc` holds none.
    pub fn from_json(doc: &Json) -> (read: Result<City, DecodeError>)
        ensures
            match read {
                Ok(city) => CityView::decoded(doc@) == Some(city@),
                Err(_) => CityView::decoded(doc@) is None,
            },
    {
        let id = read_whole(doc, "id")?;
        let name = read_text(doc, "name")?;
        let coord = match doc.member("coord") {
            Some(value) => Coord::from_json(value)?,
            None => { return Err(DecodeError); },
        };
        let country = read_text(doc, "country")?;
        let population = read_whole(doc, "population")?;
        let timezone = read_whole(doc, "timezone")?;
        let sunrise = read_whole(doc, "sunrise")?;
        let sunset = read_whole(doc, "sunset")?;
        Ok(City { id, name, coord, country, population, timezone, sunrise, sunset })
    }
}

impl WeatherDataListView {
    /// The names of the members that a forecast entry must have.
    pub open spec fn needs(name: Seq<char>) -> bool {
        name == "dt"@ || name == "main"@ || name == "weather"@ || name == "clouds"@
            || name == "wind"@ || name == "visibility"@ || name == "pop"@ || name == "sys"@
            || name == "dt_txt"@
    }

    /// The forecast entry that `doc` holds: `dt` and `visibility`, whole
    /// numbers; `pop`, a number; `dt_txt`, a text; `main`, `clouds`, `wind`
    /// and `sys`, records; `weather`, a list of phenomena; and the rain, if
    /// the entry has one.
    pub open spec fn decoded(doc: Document) -> Option<WeatherDataListView> {
        let dt = whole_at(doc, "dt"@);
        let main = record_at(doc, "main"@, |d: Document| Main::decoded(d));
        let weather = list_at(doc, "weather"@, |d: Document| WeatherView::decoded(d));
        let clouds = record_at(doc, "clouds"@, |d: Document| Clouds::decoded(d));
        let wind = record_at(doc, "wind"@, |d: Document| Wind::decoded(d));
        let visibility = whole_at(doc, "visibility"@);
        let pop = number_at(doc, "pop"@);
        let rain = Rain::decoded_at(doc);
        let sys = record_at(doc, "sys"@, |d: Document| SysView::decoded(d));
        let dt_txt = text_at(doc, "dt_txt"@);
        if dt is Some && main is Some && weather is Some && clouds is Some && wind is Some
            && visibility is Some && pop is Some && rain is Some && sys is Some && dt_txt is Some {
            Some(
                WeatherDataListView {
                    dt: dt.unwrap(),
                    main: main.unwrap(),
                    weather: weather.unwrap(),
                    clouds: clouds.unwrap(),
                    wind: wind.unwrap(),
                    visibility: visibility.unwrap(),
                    pop: pop.unwrap(),
                    rain: rain.unwrap(),
                    sys: sys.unwrap(),
                    dt_txt: dt_txt.unwrap(),
                },
            )
        } else {
            None
        }
    }
}

impl WeatherDataList {
    /// Reads the phenomena that the forecast entry `doc` lists under `weather`.
    #[verifier::loop_isolation(false)]
    pub fn read_weather(doc: &Json) -> (read: Result<Vec<Weather>, DecodeError>)
        ensures
            match read {
                Ok(weather) => list_at(doc@, "weather"@, |d: Document| WeatherView::decoded(d))
                    == Some(weather@.map_values(|w: Weather| w@)),
                Err(_) => list_at(doc@, "weather"@, |d: Document| WeatherView::decoded(d))
                    is None,
            },
    {
        let items = match doc.member("weather") {
            Some(value) => match value.items() {
                Some(items) => items,
                None => { return Err(DecodeError); },
            },
            None => { return Err(DecodeError); },
        };
        let ghost values = doc@.member("weather"@).unwrap().items().unwrap();
        let ghost read = |d: Document| WeatherView::decoded(d);
        let mut weather: Vec<Weather> = Vec::new();
        let mut i: usize = 0;
        while i < items.len()
            invariant
                i <= items.len(),
                weather@.len() == i,
                values.len() == items@.len(),
                forall|j: int| 0 <= j < items@.len() ==> #[trigger] values[j] == items@[j]@,
                forall|j: int|
                    0 <= j < i ==> WeatherView::decoded(#[trigger] values[j]) == Some(weather@[j]@),
            decreases items.len() - i,
        {
            match Weather::from_json(&items[i]) {
                Ok(one) => {
                    weather.push(one);
                },
                Err(e) => {
                    assert(read(values[i as int]) is None);
                    return Err(e);
                },
            }
            i += 1;
        }
        proof {
            assert forall|j: int| 0 <= j < values.len() implies read(#[trigger] values[j])
                is Some by {
                assert(WeatherView::decoded(values[j]) == Some(weather@[j]@));
            }
            assert(values.map_values(|item: Document| read(item).unwrap()) =~= weather@.map_values(
                |w: Weather| w@,
            ));
        }
        Ok(weather)
    }

    /// Reads a forecast entry out of `doc`, or fails where `doc` holds none.
    pub fn from_json(doc: &Json) -> (read: Result<WeatherDataList, DecodeError>)
        ensures
            match read {
                Ok(entry) => WeatherDataListView::decoded(doc@) == Some(entry@),
                Err(_) => WeatherDataListView::decoded(doc@) is None,
            },
    {
        let dt = read_whole(doc, "dt")?;
        let main = match doc.member("main") {
            Some(value) => Main::from_json(value)?,
            None => { return Err(DecodeError); },
        };
        let weather = WeatherDataList::read_weather(doc)?;
        let clouds = match doc.member("clouds") {
            Some(value) => Clouds::from_json(value)?,
            None => { return Err(DecodeError); },
        };
        let wind = match doc.member("wind") {
            Some(value) => Wind::from_json(value)?,
            None => { return Err(DecodeError); },
        };
        let visibility = read_whole(doc, "visibility")?;
        let pop = read_number(doc, "pop")?;
        let rain = Rain::read_at(doc)?;
        let sys = match doc.member("sys") {
            Some(value) => Sys::from_json(value)?,
            None => { return Err(DecodeError); },
        };
        let dt_txt = read_text(doc, "dt_txt")?;
        Ok(
            WeatherDataList {
                dt,
                main,
                weather,
                clouds,
                wind,
                visibility,
                pop,
                rain,
                sys,
                dt_txt,
            },
        )
    }
}

impl WeatherDataView {
    /// The names of the members that a forecast must have.
    pub open spec fn needs(name: Seq<char>) -> bool {
        name == "cod"@ || name == "message"@ || name == "cnt"@ || name == "list"@
            || name == "city"@
    }

    /// The forecast that `doc` holds: `cod`, a text; `message`, a number;
    /// `cnt`, a whole number; `list`, a list of forecast entries; and `city`,
    /// a place. Nothing asks that `cnt` be the length of `list`.
    pub open spec fn decoded(doc: Document) -> Option<WeatherDataView> {
        let cod = text_at(doc, "cod"@);
        let message = number_at(doc, "message"@);
        let cnt = whole_at(doc, "cnt"@);
        let list = list_at(doc, "list"@, |d: Document| WeatherDataListView::decoded(d));
        let city = record_at(doc, "city"@, |d: Document| CityView::decoded(d));
        if cod is Some && message is Some && cnt is Some && list is Some && city is Some {
            Some(
                WeatherDataView {
                    cod: cod.unwrap(),
                    message: message.unwrap(),
                    cnt: cnt.unwrap(),
                    list: list.unwrap(),
                    city: city.unwrap(),
                },
            )
        } else {
            None
        }
    }
}

impl WeatherData {
    /// Reads the forecast entries that the forecast `doc` lists under `list`.
    #[verifier::loop_isolation(false)]
    pub fn read_list(doc: &Json) -> (read: Result<Vec<WeatherDataList>, DecodeError>)
        ensures
            match read {
                Ok(list) => list_at(doc@, "list"@, |d: Document| WeatherDataListView::decoded(d))
                    == Some(list@.map_values(|e: WeatherDataList| e@)),
                Err(_) => list_at(doc@, "list"@, |d: Document| WeatherDataListView::decoded(d))
                    is None,
            },
    {
        let items = match doc.member("list") {
            Some(value) => match value.items() {
                Some(items) => items,
                None => { return Err(DecodeError); },
            },
            None => { return Err(DecodeError); },
        };
        let ghost values = doc@.member("list"@).unwrap().items().unwrap();
        let ghost read = |d: Document| WeatherDataListView::decoded(d);
        let mut list: Vec<WeatherDataList> = Vec::new();
        let mut i: usize = 0;
        while i < items.len()
            invariant
                i <= items.len(),
                list@.len() == i,
                values.len() == items@.len(),
                forall|j: int| 0 <= j < items@.len() ==> #[trigger] values[j] == items@[j]@,
                forall|j: int|
                    0 <= j < i ==> WeatherDataListView::decoded(#[trigger] values[j]) == Some(
                        list@[j]@,
                    ),
            decreases items.len() - i,
        {
            match WeatherDataList::from_json(&items[i]) {
                Ok(one) => {
                    list.push(one);
                },
                Err(e) => {
                    assert(read(values[i as int]) is None);
                    return Err(e);
                },
            }
            i += 1;
        }
        proof {
            assert forall|j: int| 0 <= j < values.len() implies read(#[trigger] values[j])
                is Some by {
                assert(WeatherDataListView::decoded(values[j]) == Some(list@[j]@));
            }
            assert(values.map_values(|item: Document| read(item).unwrap()) =~= list@.map_values(
                |e: WeatherDataList| e@,
            ));
        }
        Ok(list)
    }

    /// Reads a forecast out of `doc`: the forecast that `doc` holds, or an
    /// error where it holds none.
    pub fn from_json(doc: &Json) -> (read: Result<WeatherData, DecodeError>)
        ensures
            match read {
                Ok(data) => WeatherDataView::decoded(doc@) == Some(data@),
                Err(_) => WeatherDataView::decoded(doc@) is None,
            },
    {
        let cod = read_text(doc, "cod")?;
        let message = read_number(doc, "message")?;
        let cnt = read_whole(doc, "cnt")?;
        let list = WeatherData::read_list(doc)?;
        let city = match doc.member("city") {
            Some(value) => City::from_json(value)?,
            None => { return Err(DecodeError); },
        };
        Ok(WeatherData { cod, message, cnt, list, city })
    }
}

/// The forecast that a body holds, given what the parser makes of the body:
/// none where the body is no JSON text, and none where the text holds no
/// forecast.
pub open spec fn forecast_of(parsed: Option<Document>) -> Option<WeatherDataView> {
    match parsed {
        Some(doc) => WeatherDataView::decoded(doc),
        None => None,
    }
}

/// Decodes the body of an answer of the forecast service.
pub fn decode(body: &[u8]) -> (read: Result<WeatherData, DecodeError>)
    ensures
        match read {
            Ok(data) => forecast_of(parsed(body@)) == Some(data@),
            Err(_) => forecast_of(parsed(body@)) is None,
        },
{
    let doc = parse(body)?;
    WeatherData::from_json(&doc)
}

} // verus!
