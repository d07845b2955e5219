//! Writing a forecast as a document.
//!
//! Each record becomes a JSON record whose members bear the names that the
//! reading looks for, in the order of the record's fields. An entry without
//! rain gets no `rain` member at all.

use crate::json::{list_view, record_view, Document, Json, Member, Members};
use crate::number::Numeral;
use crate::model::{
    City, CityView, Clouds, Coord, Main, Rain, Sys, SysView, Weather, WeatherData,
    WeatherDataList, WeatherDataListView, WeatherDataView, WeatherView, Wind,
};
use vstd::prelude::*;

verus! {

/// A whole number as a document.
pub open spec fn whole_doc(n: i64) -> Document {
    Document::Number(Numeral::Whole(n))
}

/// A member named `name` that holds `value`.
pub fn member(name: &str, value: Json) -> (made: Member)
    ensures
        made.name@ == name@,
        made.value == value,
{
    Member { name: String::from_str(name), value }
}

/// A member named `name` that holds the whole number `n`.
pub fn whole_member(name: &str, n: i64) -> (made: Member)
    ensures
        made.name@ == name@,
        made.value@ == whole_doc(n),
{
    member(name, Json::Number(Numeral::Whole(n)))
}

/// A member named `name` that holds the number `n`.
pub fn number_member(name: &str, n: &Numeral) -> (made: Member)
    ensures
        made.name@ == name@,
        made.value@ == Document::Number(*n),
{
    member(name, Json::Number(n.copy()))
}

/// A member named `name` that holds the text `text`.
pub fn text_member(name: &str, text: &String) -> (made: Member)
    ensures
        made.name@ == name@,
        made.value@ == Document::Text(text@),
{
    member(name, Json::Text(text.clone()))
}

/// The record of the members `members`.
pub fn record(members: Vec<Member>) -> (made: Json)
    ensures
        made@ == Document::Record(
            Seq::new(members@.len(), |i: int| (members@[i].name@, members@[i].value@)),
        ),
{
    proof {
        record_view(members);
        assert(Json::Record(members)@->Record_0 =~= Seq::new(
            members@.len(),
            |i: int| (members@[i].name@, members@[i].value@),
        ));
    }
    Json::Record(members)
}

impl Coord {
    /// This point as a document.
    pub open spec fn document(self) -> Document {
        Document::Record(
            seq![("lat"@, Document::Number(self.lat)), ("lon"@, Document::Number(self.lon))],
        )
    }

    /// Writes this point as a document.
    pub fn to_json(&self) -> (made: Json)
        ensures
            made@ == self.document(),
    {
        let mut members: Vec<Member> = Vec::new();
        members.push(number_member("lat", &self.lat));
        members.push(number_member("lon", &self.lon));
        let made = record(members);
        assert(made@->Record_0 =~= self.document()->Record_0);
        made
    }
}

impl Clouds {
    /// This cloud cover as a document.
    pub open spec fn document(self) -> Document {
        Document::Record(seq![("all"@, whole_doc(self.all))])
    }

    /// Writes this cloud cover as a document.
    pub fn to_json(&self) -> (made: Json)
        ensures
            made@ == self.document(),
    {
        let mut members: Vec<Member> = Vec::new();
        members.push(whole_member("all", self.all));
        let made = record(members);
        assert(made@->Record_0 =~= self.document()->Record_0);
        made
    }
}

impl Main {
    /// These readings as a document.
    pub open spec fn document(self) -> Document {
        Document::Record(
            seq![
                ("temp"@, Document::Number(self.temp)),
                ("feels_like"@, Document::Number(self.feels_like)),
                ("temp_min"@, Document::Number(self.temp_min)),
                ("temp_max"@, Document::Number(self.temp_max)),
                ("pressure"@, whole_doc(self.pressure)),
                ("sea_level"@, whole_doc(self.sea_level)),
                ("grnd_level"@, whole_doc(self.grnd_level)),
                ("humidity"@, whole_doc(self.humidity)),
                ("temp_kf"@, Document::Number(self.temp_kf)),
            ],
        )
    }

    /// Writes these readings as a document.
    pub fn to_json(&self) -> (made: Json)
        ensures
            made@ == self.document(),
    {
        let mut members: Vec<Member> = Vec::new();
        members.push(number_member("temp", &self.temp));
        members.push(number_member("feels_like", &self.feels_like));
        members.push(number_member("temp_min", &self.temp_min));
        members.push(number_member("temp_max", &self.temp_max));
        members.push(whole_member("pressure", self.pressure));
        members.push(whole_member("sea_level", self.sea_level));
        members.push(whole_member("grnd_level", self.grnd_level));
        members.push(whole_member("humidity", self.humidity));
        members.push(number_member("temp_kf", &self.temp_kf));
        let made = record(members);
        assert(made@->Record_0 =~= self.document()->Record_0);
        made
    }
}

impl Wind {
    /// This wind as a document.
    pub open spec fn document(self) -> Document {
        Document::Record(
            seq![
                ("speed"@, Document::Number(self.speed)),
                ("deg"@, whole_doc(self.deg)),
                ("gust"@, Document::Number(self.gust)),
            ],
        )
    }

    /// Writes this wind as a document.
    pub fn to_json(&self) -> (made: Json)
        ensures
            made@ == self.document(),
    {
        let mut members: Vec<Member> = Vec::new();
        members.push(number_member("speed", &self.speed));
        members.push(whole_member("deg", self.deg));
        members.push(number_member("gust", &self.gust));
        let made = record(members);
        assert(made@->Record_0 =~= self.document()->Record_0);
        made
    }
}

impl Rain {
    /// This rain as a document: its volume under the name `3h`.
    pub open spec fn document(self) -> Document {
        Document::Record(seq![("3h"@, Document::Number(self.h3))])
    }

    /// Writes this rain as a document.
    pub fn to_json(&self) -> (made: Json)
        ensures
            made@ == self.document(),
    {
        let mut members: Vec<Member> = Vec::new();
        members.push(number_member("3h", &self.h3));
        let made = record(members);
        assert(made@->Record_0 =~= self.document()->Record_0);
        made
    }
}

impl WeatherView {
    /// This phenomenon as a document.
    pub open spec fn document(self) -> Document {
        Document::Record(
            seq![
                ("id"@, whole_doc(self.id)),
                ("main"@, Document::Text(self.main)),
                ("description"@, Document::Text(self.description)),
                ("icon"@, Document::Text(self.icon)),
            ],
        )
    }
}

impl Weather {
    /// Writes this phenomenon as a document.
    pub fn to_json(&self) -> (made: Json)
        ensures
            made@ == self@.document(),
    {
        let mut members: Vec<Member> = Vec::new();
        members.push(whole_member("id", self.id));
        members.push(text_member("main", &self.main));
        members.push(text_member("description", &self.description));
        members.push(text_member("icon", &self.icon));
        let made = record(members);
        assert(made@->Record_0 =~= self@.document()->Record_0);
        made
    }
}

impl SysView {
    /// This part of the day as a document.
    pub open spec fn document(self) -> Document {
        Document::Record(seq![("pod"@, Document::Text(self.pod))])
    }
}

impl Sys {
    /// Writes this part of the day as a document.
    pub fn to_json(&self) -> (made: Json)
        ensures
            made@ == self@.document(),
    {
        let mut members: Vec<Member> = Vec::new();
        members.push(text_member("pod", &self.pod));
        let made = record(members);
        assert(made@->Record_0 =~= self@.document()->Record_0);
        made
    }
}

impl CityView {
    /// This place as a document.
    pub open spec fn document(self) -> Document {
        Document::Record(
            seq![
                ("id"@, whole_doc(self.id)),
                ("name"@, Document::Text(self.name)),
                ("coord"@, self.coord.document()),
                ("country"@, Document::Text(self.country)),
                ("population"@, whole_doc(self.population)),
                ("timezone"@, whole_doc(self.timezone)),
                ("sunrise"@, whole_doc(self.sunrise)),
                ("sunset"@, whole_doc(self.sunset)),
            ],
        )
    }
}

impl City {
    /// Writes this place as a document.
    pub fn to_json(&self) -> (made: Json)
        ensures
            made@ == self@.document(),
    {
        let mut members: Vec<Member> = Vec::new();
        members.push(whole_member("id", self.id));
        members.push(text_member("name", &self.name));
        members.push(member("coord", self.coord.to_json()));
        members.push(text_member("country", &self.country));
        members.push(whole_member("population", self.population));
        members.push(whole_member("timezone", self.timezone));
        members.push(whole_member("sunrise", self.sunrise));
        members.push(whole_member("sunset", self.sunset));
        let made = record(members);
        assert(made@->Record_0 =~= self@.document()->Record_0);
        made
    }
}

/// The `rain` member of an entry: one member if the entry has rain, none if not.
pub open spec fn rain_members(rain: Option<Rain>) -> Members {
    match rain {
        Some(rain) => seq![("rain"@, rain.document())],
        None => Seq::empty(),
    }
}

impl WeatherDataListView {
    /// This forecast entry as a document. The `rain` member is there if and
    /// only if the entry has rain.
    pub open spec fn document(self) -> Document {
        Document::Record(
            seq![
                ("dt"@, whole_doc(self.dt)),
                ("main"@, self.main.document()),
                (
                    "weather"@,
                    Document::List(self.weather.map_values(|w: WeatherView| w.document())),
                ),
                ("clouds"@, self.clouds.document()),
                ("wind"@, self.wind.document()),
                ("visibility"@, whole_doc(self.visibility)),
                ("pop"@, Document::Number(self.pop)),
            ] + rain_members(self.rain) + seq![
                ("sys"@, self.sys.document()),
                ("dt_txt"@, Document::Text(self.dt_txt)),
            ],
        )
    }
}

impl WeatherDataList {
    /// The phenomena of this entry as a list of documents.
    pub fn weather_to_json(&self) -> (made: Json)
        ensures
            made@ == Document::List(self@.weather.map_values(|w: WeatherView| w.document())),
    {
        let mut items: Vec<Json> = Vec::new();
        let mut i: usize = 0;
        while i < self.weather.len()
            invariant
                i <= self.weather.len(),
                items@.len() == i,
                forall|j: int| 0 <= j < i ==> (#[trigger] items@[j])@ == self.weather@[j]@.document(),
            decreases self.weather.len() - i,
        {
            items.push(self.weather[i].to_json());
            i += 1;
        }
        proof {
            list_view(items);
            assert(Json::List(items)@->List_0 =~= self@.weather.map_values(
                |w: WeatherView| w.document(),
            ));
        }
        Json::List(items)
    }

    /// Writes this forecast entry as a document.
    pub fn to_json(&self) -> (made: Json)
        ensures
            made@ == self@.document(),
    {
        let mut members: Vec<Member> = Vec::new();
        members.push(whole_member("dt", self.dt));
        members.push(member("main", self.main.to_json()));
        members.push(member("weather", self.weather_to_json()));
        members.push(member("clouds", self.clouds.to_json()));
        members.push(member("wind", self.wind.to_json()));
        members.push(whole_member("visibility", self.visibility));
        members.push(number_member("pop", &self.pop));
        match &self.rain {
            Some(rain) => {
                members.push(member("rain", rain.to_json()));
            },
            None => {},
        }
        members.push(member("sys", self.sys.to_json()));
        members.push(text_member("dt_txt", &self.dt_txt));
        let made = record(members);
        assert(made@->Record_0 =~= self@.document()->Record_0);
        made
    }
}

impl WeatherDataView {
    /// This forecast as a document.
    pub open spec fn document(self) -> Document {
        Document::Record(
            seq![
                ("cod"@, Document::Text(self.cod)),
                ("message"@, Document::Number(self.message)),
                ("cnt"@, whole_doc(self.cnt)),
                (
                    "list"@,
                    Document::List(self.list.map_values(|e: WeatherDataListView| e.document())),
                ),
                ("city"@, self.city.document()),
            ],
        )
    }
}

impl WeatherData {
    /// The entries of this forecast as a list of documents.
    pub fn list_to_json(&self) -> (made: Json)
        ensures
            made@ == Document::List(self@.list.map_values(|e: WeatherDataListView| e.document())),
    {
        let mut items: Vec<Json> = Vec::new();
        let mut i: usize = 0;
        while i < self.list.len()
            invariant
                i <= self.list.len(),
                items@.len() == i,
                forall|j: int| 0 <= j < i ==> (#[trigger] items@[j])@ == self.list@[j]@.document(),
            decreases self.list.len() - i,
        {
            items.push(self.list[i].to_json());
            i += 1;
        }
        proof {
            list_view(items);
            assert(Json::List(items)@->List_0 =~= self@.list.map_values(
                |e: WeatherDataListView| e.document(),
            ));
        }
        Json::List(items)
    }

    /// Writes this forecast as a document.
    pub fn to_json(&self) -> (made: Json)
        ensures
            made@ == self@.document(),
    {
        let mut members: Vec<Member> = Vec::new();
        members.push(text_member("cod", &self.cod));
        members.push(number_member("message", &self.message));
        members.push(whole_member("cnt", self.cnt));
        members.push(member("list", self.list_to_json()));
        members.push(member("city", self.city.to_json()));
        let made = record(members);
        assert(made@->Record_0 =~= self@.document()->Record_0);
        made
    }
}

} // verus!
