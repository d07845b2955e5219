//! The records of a forecast, and what each of them is to the contracts.
//!
//! A record that holds text or a list has a ghost twin, its view, that holds
//! sequences in their place. A record of numbers alone is its own view.

use crate::number::Numeral;
use vstd::prelude::*;

verus! {

/// A point on the globe.
#[derive(Debug, Clone, PartialEq)]
pub struct Coord {
    pub lat: Numeral,
    pub lon: Numeral,
}

/// Temperature, pressure and humidity at one time.
#[derive(Debug, Clone, PartialEq)]
pub struct Main {
    pub temp: Numeral,
    pub feels_like: Numeral,
    pub temp_min: Numeral,
    pub temp_max: Numeral,
    pub pressure: i64,
    pub sea_level: i64,
    pub grnd_level: i64,
    pub humidity: i64,
    pub temp_kf: Numeral,
}

/// Cloud cover, in percent.
#[derive(Debug, Clone, PartialEq)]
pub struct Clouds {
    pub all: i64,
}

/// Wind speed, direction in degrees, and gusts.
#[derive(Debug, Clone, PartialEq)]
pub struct Wind {
    pub speed: Numeral,
    pub deg: i64,
    pub gust: Numeral,
}

/// Rain over the last three hours. A document names the volume `3h`.
#[derive(Debug, Clone, PartialEq)]
pub struct Rain {
    pub h3: Numeral,
}

/// One weather phenomenon.
#[derive(Debug, Clone, PartialEq)]
pub struct Weather {
    pub id: i64,
    pub main: String,
    pub description: String,
    pub icon: String,
}

/// A phenomenon as the contracts see it.
pub ghost struct WeatherView {
    pub id: i64,
    pub main: Seq<char>,
    pub description: Seq<char>,
    pub icon: Seq<char>,
}

/// The part of the day: `d` or `n`.
#[derive(Debug, Clone, PartialEq)]
pub struct Sys {
    pub pod: String,
}

/// A part of the day as the contracts see it.
pub ghost struct SysView {
    pub pod: Seq<char>,
}

/// The place that a forecast is for.
#[derive(Debug, Clone, PartialEq)]
pub struct City {
    pub id: i64,
    pub name: String,
    pub coord: Coord,
    pub country: String,
    pub population: i64,
    pub timezone: i64,
    pub sunrise: i64,
    pub sunset: i64,
}

/// A place as the contracts see it.
pub ghost struct CityView {
    pub id: i64,
    pub name: Seq<char>,
    pub coord: Coord,
    pub country: Seq<char>,
    pub population: i64,
    pub timezone: i64,
    pub sunrise: i64,
    pub sunset: i64,
}

/// The forecast for one point in time.
#[derive(Debug, Clone, PartialEq)]
pub struct WeatherDataList {
    pub dt: i64,
    pub main: Main,
    pub weather: Vec<Weather>,
    pub clouds: Clouds,
    pub wind: Wind,
    pub visibility: i64,
    pub pop: Numeral,
    pub rain: Option<Rain>,
    pub sys: Sys,
    pub dt_txt: String,
}

/// A forecast entry as the contracts see it.
pub ghost struct WeatherDataListView {
    pub dt: i64,
    pub main: Main,
    pub weather: Seq<WeatherView>,
    pub clouds: Clouds,
    pub wind: Wind,
    pub visibility: i64,
    pub pop: Numeral,
    pub rain: Option<Rain>,
    pub sys: SysView,
    pub dt_txt: Seq<char>,
}

/// A whole answer of the forecast service. `cnt` is what the service says of
/// the length of `list`; nothing holds the two together.
#[derive(Debug, Clone, PartialEq)]
pub struct WeatherData {
    pub cod: String,
    pub message: Numeral,
    pub cnt: i64,
    pub list: Vec<WeatherDataList>,
    pub city: City,
}

/// A forecast as the contracts see it.
pub ghost struct WeatherDataView {
    pub cod: Seq<char>,
    pub message: Numeral,
    pub cnt: i64,
    pub list: Seq<WeatherDataListView>,
    pub city: CityView,
}

impl View for Weather {
    type V = WeatherView;

    open spec fn view(&self) -> WeatherView {
        WeatherView {
            id: self.id,
            main: self.main@,
            description: self.description@,
            icon: self.icon@,
        }
    }
}

impl View for Sys {
    type V = SysView;

    open spec fn view(&self) -> SysView {
        SysView { pod: self.pod@ }
    }
}

impl View for City {
    type V = CityView;

    open spec fn view(&self) -> CityView {
        CityView {
            id: self.id,
            name: self.name@,
            coord: self.coord,
            country: self.country@,
            population: self.population,
            timezone: self.timezone,
            sunrise: self.sunrise,
            sunset: self.sunset,
        }
    }
}

impl View for WeatherDataList {
    type V = WeatherDataListView;

    open spec fn view(&self) -> WeatherDataListView {
        WeatherDataListView {
            dt: self.dt,
            main: self.main,
            weather: self.weather@.map_values(|w: Weather| w@),
            clouds: self.clouds,
            wind: self.wind,
            visibility: self.visibility,
            pop: self.pop,
            rain: self.rain,
            sys: self.sys@,
            dt_txt: self.dt_txt@,
        }
    }
}

impl View for WeatherData {
    type V = WeatherDataView;

    open spec fn view(&self) -> WeatherDataView {
        WeatherDataView {
            cod: self.cod@,
            message: self.message,
            cnt: self.cnt,
            list: self.list@.map_values(|e: WeatherDataList| e@),
            city: self.city@,
        }
    }
}

} // verus!
