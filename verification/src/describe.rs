//! A forecast as text for a reader: each record by its name, with its
//! fields in braces.

use crate::model::{
    City, CityView, Clouds, Coord, Main, Rain, Sys, SysView, Weather, WeatherData,
    WeatherDataList, WeatherDataListView, WeatherDataView, WeatherView, Wind,
};
use crate::number::{real_of, real_text};
use crate::text::{
    decimal, decimal_of, list_text, listed, occurs, occurs_after, occurs_at, occurs_before, quoted,
    quoted_of,
};
use vstd::prelude::*;
use vstd::string::StringExecFns;

verus! {

impl Coord {
    /// The text of this point: `Coord`, and in braces the name of each field with what the field holds.
    pub open spec fn described(self) -> Seq<char> {
        "Coord { lat: "@ + real_of(self.lat)
            + ", lon: "@ + real_of(self.lon)
            + " }"@
    }

    /// Writes this point as text.
    pub fn describe(&self) -> (text: String)
        ensures
            text@ == self.described(),
    {
        let mut text = String::from_str("Coord { lat: ");
        text.append(real_text(&self.lat).as_str());
        text.append(", lon: ");
        text.append(real_text(&self.lon).as_str());
        text.append(" }");
        text
    }
}

impl Main {
    /// The text of these readings: `Main`, and in braces the name of each field with what the field holds.
    pub open spec fn described(self) -> Seq<char> {
        "Main { temp: "@ + real_of(self.temp)
            + ", feels_like: "@ + real_of(self.feels_like)
            + ", temp_min: "@ + real_of(self.temp_min)
            + ", temp_max: "@ + real_of(self.temp_max)
            + ", pressure: "@ + decimal_of(self.pressure as int)
            + ", sea_level: "@ + decimal_of(self.sea_level as int)
            + ", grnd_level: "@ + decimal_of(self.grnd_level as int)
            + ", humidity: "@ + decimal_of(self.humidity as int)
            + ", temp_kf: "@ + real_of(self.temp_kf)
            + " }"@
    }

    /// Writes these readings as text.
    pub fn describe(&self) -> (text: String)
        ensures
            text@ == self.described(),
    {
        let mut text = String::from_str("Main { temp: ");
        text.append(real_text(&self.temp).as_str());
        text.append(", feels_like: ");
        text.append(real_text(&self.feels_like).as_str());
        text.append(", temp_min: ");
        text.append(real_text(&self.temp_min).as_str());
        text.append(", temp_max: ");
        text.append(real_text(&self.temp_max).as_str());
        text.append(", pressure: ");
        text.append(decimal(self.pressure).as_str());
        text.append(", sea_level: ");
        text.append(decimal(self.sea_level).as_str());
        text.append(", grnd_level: ");
        text.append(decimal(self.grnd_level).as_str());
        text.append(", humidity: ");
        text.append(decimal(self.humidity).as_str());
        text.append(", temp_kf: ");
        text.append(real_text(&self.temp_kf).as_str());
        text.append(" }");
        text
    }
}

impl Clouds {
    /// The text of this cloud cover: `Clouds`, and in braces the name of each field with what the field holds.
    pub open spec fn described(self) -> Seq<char> {
        "Clouds { all: "@ + decimal_of(self.all as int)
            + " }"@
    }

    /// Writes this cloud cover as text.
    pub fn describe(&self) -> (text: String)
        ensures
            text@ == self.described(),
    {
        let mut text = String::from_str("Clouds { all: ");
        text.append(decimal(self.all).as_str());
        text.append(" }");
        text
    }
}

impl Wind {
    /// The text of this wind: `Wind`, and in braces the name of each field with what the field holds.
    pub open spec fn described(self) -> Seq<char> {
        "Wind { speed: "@ + real_of(self.speed)
            + ", deg: "@ + decimal_of(self.deg as int)
            + ", gust: "@ + real_of(self.gust)
            + " }"@
    }

    /// Writes this wind as text.
    pub fn describe(&self) -> (text: String)
        ensures
            text@ == self.described(),
    {
        let mut text = String::from_str("Wind { speed: ");
        text.append(real_text(&self.speed).as_str());
        text.append(", deg: ");
        text.append(decimal(self.deg).as_str());
        text.append(", gust: ");
        text.append(real_text(&self.gust).as_str());
        text.append(" }");
        text
    }
}

impl Rain {
    /// The text of this rain: `Rain`, and in braces the name of each field with what the field holds.
    pub open spec fn described(self) -> Seq<char> {
        "Rain { h3: "@ + real_of(self.h3)
            + " }"@
    }

    /// Writes this rain as text.
    pub fn describe(&self) -> (text: String)
        ensures
            text@ == self.described(),
    {
        let mut text = String::from_str("Rain { h3: ");
        text.append(real_text(&self.h3).as_str());
        text.append(" }");
        text
    }
}

/// The text of the rain of an entry: `None`, or `Some` with the rain in
/// round brackets.
pub open spec fn rain_described(rain: Option<Rain>) -> Seq<char> {
    match rain {
        Some(rain) => "Some("@ + rain.described() + ")"@,
        None => "None"@,
    }
}

/// Writes the rain of an entry as text.
pub fn describe_rain(rain: &Option<Rain>) -> (text: String)
    ensures
        text@ == rain_described(*rain),
{
    match rain {
        Some(rain) => {
            let mut text = String::from_str("Some(");
            text.append(rain.describe().as_str());
            text.append(")");
            text
        },
        None => String::from_str("None"),
    }
}

impl WeatherView {
    /// The text of this phenomenon: `Weather`, and in braces the name of each field with what the field holds.
    pub open spec fn described(self) -> Seq<char> {
        "Weather { id: "@ + decimal_of(self.id as int)
            + ", main: "@ + quoted_of(self.main)
            + ", description: "@ + quoted_of(self.description)
            + ", icon: "@ + quoted_of(self.icon)
            + " }"@
    }
}

impl Weather {
    /// Writes this phenomenon as text.
    pub fn describe(&self) -> (text: String)
        ensures
            text@ == self@.described(),
    {
        let mut text = String::from_str("Weather { id: ");
        text.append(decimal(self.id).as_str());
        text.append(", main: ");
        text.append(quoted(self.main.as_str()).as_str());
        text.append(", description: ");
        text.append(quoted(self.description.as_str()).as_str());
        text.append(", icon: ");
        text.append(quoted(self.icon.as_str()).as_str());
        text.append(" }");
        text
    }
}

impl SysView {
    /// The text of this part of the day: `Sys`, and in braces the name of each field with what the field holds.
    pub open spec fn described(self) -> Seq<char> {
        "Sys { pod: "@ + quoted_of(self.pod)
            + " }"@
    }
}

impl Sys {
    /// Writes this part of the day as text.
    pub fn describe(&self) -> (text: String)
        ensures
            text@ == self@.described(),
    {
        let mut text = String::from_str("Sys { pod: ");
        text.append(quoted(self.pod.as_str()).as_str());
        text.append(" }");
        text
    }
}

impl CityView {
    /// The text of this place: `City`, and in braces the name of each field with what the field holds.
    pub open spec fn described(self) -> Seq<char> {
        "City { id: "@ + decimal_of(self.id as int)
            + ", name: "@ + quoted_of(self.name)
            + ", coord: "@ + self.coord.described()
            + ", country: "@ + quoted_of(self.country)
            + ", population: "@ + decimal_of(self.population as int)
            + ", timezone: "@ + decimal_of(self.timezone as int)
            + ", sunrise: "@ + decimal_of(self.sunrise as int)
            + ", sunset: "@ + decimal_of(self.sunset as int)
            + " }"@
    }
}

impl City {
    /// Writes this place as text.
    pub fn describe(&self) -> (text: String)
        ensures
            text@ == self@.described(),
    {
        let mut text = String::from_str("City { id: ");
        text.append(decimal(self.id).as_str());
        text.append(", name: ");
        text.append(quoted(self.name.as_str()).as_str());
        text.append(", coord: ");
        text.append(self.coord.describe().as_str());
        text.append(", country: ");
        text.append(quoted(self.country.as_str()).as_str());
        text.append(", population: ");
        text.append(decimal(self.population).as_str());
        text.append(", timezone: ");
        text.append(decimal(self.timezone).as_str());
        text.append(", sunrise: ");
        text.append(decimal(self.sunrise).as_str());
        text.append(", sunset: ");
        text.append(decimal(self.sunset).as_str());
        text.append(" }");
        text
    }
}

impl WeatherDataListView {
    /// The text of this forecast entry: `WeatherDataList`, and in braces the name of each field with what the field holds.
    pub open spec fn described(self) -> Seq<char> {
        "WeatherDataList { dt: "@ + decimal_of(self.dt as int)
            + ", main: "@ + self.main.described()
            + ", weather: "@ + listed(self.weather.map_values(|item: WeatherView| item.described()))
            + ", clouds: "@ + self.clouds.described()
            + ", wind: "@ + self.wind.described()
            + ", visibility: "@ + decimal_of(self.visibility as int)
            + ", pop: "@ + real_of(self.pop)
            + ", rain: "@ + rain_described(self.rain)
            + ", sys: "@ + self.sys.described()
            + ", dt_txt: "@ + quoted_of(self.dt_txt)
            + " }"@
    }
}

impl WeatherDataList {
    /// Writes the `weather` of this forecast entry as text: the items in square brackets, a comma
    /// and a blank between two of them.
    pub fn describe_weather(&self) -> (text: String)
        ensures
            text@ == listed(self@.weather.map_values(|item: WeatherView| item.described())),
    {
        let mut items: Vec<String> = Vec::new();
        let mut i: usize = 0;
        while i < self.weather.len()
            invariant
                i <= self.weather.len(),
                items@.len() == i,
                forall|j: int| 0 <= j < i ==> (#[trigger] items@[j])@ == self.weather@[j]@.described(),
            decreases self.weather.len() - i,
        {
            items.push(self.weather[i].describe());
            i += 1;
        }
        assert(items@.map_values(|item: String| item@) =~= self@.weather.map_values(
            |item: WeatherView| item.described(),
        ));
        list_text(&items)
    }

    /// Writes this forecast entry as text.
    pub fn describe(&self) -> (text: String)
        ensures
            text@ == self@.described(),
    {
        let mut text = String::from_str("WeatherDataList { dt: ");
        text.append(decimal(self.dt).as_str());
        text.append(", main: ");
        text.append(self.main.describe().as_str());
        text.append(", weather: ");
        text.append(self.describe_weather().as_str());
        text.append(", clouds: ");
        text.append(self.clouds.describe().as_str());
        text.append(", wind: ");
        text.append(self.wind.describe().as_str());
        text.append(", visibility: ");
        text.append(decimal(self.visibility).as_str());
        text.append(", pop: ");
        text.append(real_text(&self.pop).as_str());
        text.append(", rain: ");
        text.append(describe_rain(&self.rain).as_str());
        text.append(", sys: ");
        text.append(self.sys.describe().as_str());
        text.append(", dt_txt: ");
        text.append(quoted(self.dt_txt.as_str()).as_str());
        text.append(" }");
        text
    }
}

impl WeatherDataView {
    /// The text of this forecast: `WeatherData`, and in braces the name of each field with what the field holds.
    pub open spec fn described(self) -> Seq<char> {
        "WeatherData { cod: "@ + quoted_of(self.cod)
            + ", message: "@ + real_of(self.message)
            + ", cnt: "@ + decimal_of(self.cnt as int)
            + ", list: "@ + listed(self.list.map_values(|item: WeatherDataListView| item.described()))
            + ", city: "@ + self.city.described()
            + " }"@
    }
}

impl WeatherData {
    /// Writes the `list` of this forecast as text: the items in square brackets, a comma
    /// and a blank between two of them.
    pub fn describe_list(&self) -> (text: String)
        ensures
            text@ == listed(self@.list.map_values(|item: WeatherDataListView| item.described())),
    {
        let mut items: Vec<String> = Vec::new();
        let mut i: usize = 0;
        while i < self.list.len()
            invariant
                i <= self.list.len(),
                items@.len() == i,
                forall|j: int| 0 <= j < i ==> (#[trigger] items@[j])@ == self.list@[j]@.described(),
            decreases self.list.len() - i,
        {
            items.push(self.list[i].describe());
            i += 1;
        }
        assert(items@.map_values(|item: String| item@) =~= self@.list.map_values(
            |item: WeatherDataListView| item.described(),
        ));
        list_text(&items)
    }

    /// Writes this forecast as text.
    pub fn describe(&self) -> (text: String)
        ensures
            text@ == self@.described(),
    {
        let mut text = String::from_str("WeatherData { cod: ");
        text.append(quoted(self.cod.as_str()).as_str());
        text.append(", message: ");
        text.append(real_text(&self.message).as_str());
        text.append(", cnt: ");
        text.append(decimal(self.cnt).as_str());
        text.append(", list: ");
        text.append(self.describe_list().as_str());
        text.append(", city: ");
        text.append(self.city.describe().as_str());
        text.append(" }");
        text
    }
}
/// The words that stand before each field of a forecast hold the field's name.
proof fn leads_name_fields()
    ensures
        occurs("cod"@, "WeatherData { cod: "@),
        occurs("message"@, ", message: "@),
        occurs("cnt"@, ", cnt: "@),
        occurs("list"@, ", list: "@),
        occurs("city"@, ", city: "@),
{
    reveal_strlit("cod");
    reveal_strlit("message");
    reveal_strlit("cnt");
    reveal_strlit("list");
    reveal_strlit("city");
    reveal_strlit("WeatherData { cod: ");
    reveal_strlit(", message: ");
    reveal_strlit(", cnt: ");
    reveal_strlit(", list: ");
    reveal_strlit(", city: ");
    assert(occurs_at("cod"@, "WeatherData { cod: "@, 14)) by {
        assert("WeatherData { cod: "@.subrange(14, 17) =~= "cod"@);
    }
    assert(occurs_at("message"@, ", message: "@, 2)) by {
        assert(", message: "@.subrange(2, 9) =~= "message"@);
    }
    assert(occurs_at("cnt"@, ", cnt: "@, 2)) by {
        assert(", cnt: "@.subrange(2, 5) =~= "cnt"@);
    }
    assert(occurs_at("list"@, ", list: "@, 2)) by {
        assert(", list: "@.subrange(2, 6) =~= "list"@);
    }
    assert(occurs_at("city"@, ", city: "@, 2)) by {
        assert(", city: "@.subrange(2, 6) =~= "city"@);
    }
}

/// What stands in the words before a field of a forecast stands in the
/// text of the forecast.
proof fn leads_stand(needle: Seq<char>, data: WeatherDataView)
    ensures
        occurs(needle, "WeatherData { cod: "@) ==> occurs(needle, data.described()),
        occurs(needle, ", message: "@) ==> occurs(needle, data.described()),
        occurs(needle, ", cnt: "@) ==> occurs(needle, data.described()),
        occurs(needle, ", list: "@) ==> occurs(needle, data.described()),
        occurs(needle, ", city: "@) ==> occurs(needle, data.described()),
{
    let cod = quoted_of(data.cod);
    let message = real_of(data.message);
    let cnt = decimal_of(data.cnt as int);
    let list = listed(data.list.map_values(|item: WeatherDataListView| item.described()));
    let city = data.city.described();
    let t0 = "WeatherData { cod: "@;
    let t1 = t0 + cod;
    let t2 = t1 + ", message: "@;
    let t3 = t2 + message;
    let t4 = t3 + ", cnt: "@;
    let t5 = t4 + cnt;
    let t6 = t5 + ", list: "@;
    let t7 = t6 + list;
    let t8 = t7 + ", city: "@;
    let t9 = t8 + city;
    assert(data.described() == t9 + " }"@);
    if occurs(needle, ", message: "@) {
        occurs_after(needle, t1, ", message: "@);
    }
    if occurs(needle, ", cnt: "@) {
        occurs_after(needle, t3, ", cnt: "@);
    }
    if occurs(needle, ", list: "@) {
        occurs_after(needle, t5, ", list: "@);
    }
    if occurs(needle, ", city: "@) {
        occurs_after(needle, t7, ", city: "@);
    }
    if occurs(needle, t0) {
        occurs_before(needle, t0, cod);
    }
    if occurs(needle, t1) {
        occurs_before(needle, t1, ", message: "@);
    }
    if occurs(needle, t2) {
        occurs_before(needle, t2, message);
    }
    if occurs(needle, t3) {
        occurs_before(needle, t3, ", cnt: "@);
    }
    if occurs(needle, t4) {
        occurs_before(needle, t4, cnt);
    }
    if occurs(needle, t5) {
        occurs_before(needle, t5, ", list: "@);
    }
    if occurs(needle, t6) {
        occurs_before(needle, t6, list);
    }
    if occurs(needle, t7) {
        occurs_before(needle, t7, ", city: "@);
    }
    if occurs(needle, t8) {
        occurs_before(needle, t8, city);
    }
    if occurs(needle, t9) {
        occurs_before(needle, t9, " }"@);
    }
}

/// The text of a forecast holds the name of each of its fields: `cod`,
/// `message`, `cnt`, `list` and `city`.
pub proof fn text_names_fields(data: WeatherDataView)
    ensures
        occurs("cod"@, data.described()),
        occurs("message"@, data.described()),
        occurs("cnt"@, data.described()),
        occurs("list"@, data.described()),
        occurs("city"@, data.described()),
{
    leads_name_fields();
    leads_stand("cod"@, data);
    leads_stand("message"@, data);
    leads_stand("cnt"@, data);
    leads_stand("list"@, data);
    leads_stand("city"@, data);
}

} // verus!
