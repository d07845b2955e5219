use forecast::cli::{plan, report, usage, Invocation};
use forecast::number::Numeral;
use forecast::model::{City, Coord, WeatherData};
use forecast::request::{forecast_url, request_url, API_KEY};

fn words(args: &[&str]) -> Vec<String> {
    args.iter().map(|s| s.to_string()).collect()
}

#[test]
fn with_no_argument_the_usage_line_is_asked_for() {
    assert_eq!(
        plan(&words(&["weather"])),
        Invocation::Usage("Usage: weather LATITUDE LONGITUDE".to_string())
    );
}

#[test]
fn with_one_argument_the_usage_line_is_asked_for() {
    assert_eq!(
        plan(&words(&["./target/debug/weather", "37.7749"])),
        Invocation::Usage("Usage: ./target/debug/weather LATITUDE LONGITUDE".to_string())
    );
}

#[test]
fn a_usage_line_begins_with_usage() {
    for program in ["", "w", "a b", "Usage: "] {
        let line = usage(program);
        assert!(line.starts_with("Usage: "));
        assert_eq!(line, format!("Usage: {} LATITUDE LONGITUDE", program));
        match plan(&words(&[program])) {
            Invocation::Usage(planned) => assert_eq!(planned, line),
            Invocation::Fetch { .. } => panic!("nothing may be fetched"),
        }
    }
}

#[test]
fn with_two_arguments_the_forecast_is_asked_for() {
    assert_eq!(
        plan(&words(&["weather", "37.7749", "-122.4194"])),
        Invocation::Fetch { lat: "37.7749".to_string(), lon: "-122.4194".to_string() }
    );
}

#[test]
fn arguments_are_taken_as_they_are_and_further_ones_left_aside() {
    assert_eq!(
        plan(&words(&["weather", " north ", "", "third", "fourth"])),
        Invocation::Fetch { lat: " north ".to_string(), lon: String::new() }
    );
}

#[test]
fn the_address_holds_latitude_longitude_and_key() {
    assert_eq!(
        forecast_url("37.7749", "-122.4194", "k3y"),
        "https://api.openweathermap.org/data/2.5/forecast?lat=37.7749&lon=-122.4194&appid=k3y"
    );
    assert_eq!(
        forecast_url("", "", ""),
        "https://api.openweathermap.org/data/2.5/forecast?lat=&lon=&appid="
    );
    assert_eq!(
        forecast_url("a b", "&lat=1", "#"),
        "https://api.openweathermap.org/data/2.5/forecast?lat=a b&lon=&lat=1&appid=#"
    );
}

#[test]
fn the_address_is_asked_with_the_key_that_is_built_in() {
    assert_eq!(API_KEY, "API_KEY GOES HERE");
    assert_eq!(
        request_url("37.7749", "-122.4194"),
        "https://api.openweathermap.org/data/2.5/forecast?lat=37.7749&lon=-122.4194&appid=API_KEY GOES HERE"
    );
    assert_eq!(request_url("1", "2"), forecast_url("1", "2", API_KEY));
}

#[test]
fn a_forecast_is_printed_after_the_banner() {
    let data = WeatherData {
        cod: "404".to_string(),
        message: Numeral::Whole(7),
        cnt: 0,
        list: vec![],
        city: City {
            id: 0,
            name: String::new(),
            coord: Coord { lat: Numeral::Whole(0), lon: Numeral::Whole(-1) },
            country: String::new(),
            population: 0,
            timezone: 0,
            sunrise: 0,
            sunset: 0,
        },
    };
    let line = report(&data);
    assert_eq!(
        line,
        "Forecast => WeatherData { cod: \"404\", message: 7.0, cnt: 0, list: [], city: City { id: 0, \
         name: \"\", coord: Coord { lat: 0.0, lon: -1.0 }, country: \"\", population: 0, timezone: 0, \
         sunrise: 0, sunset: 0 } }"
    );
    assert_eq!(line, format!("Forecast => {}", data.describe()));
    for name in ["cod", "message", "cnt", "list", "city"] {
        assert!(line.contains(name));
    }
}
