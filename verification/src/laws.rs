//! What holds of reading and writing together: a record that is written and
//! read again is the same record, a document that lacks a needed member
//! holds no record, and members of other names are passed over.

use crate::json::{lookup_finds, lookup_misses, lookup_skips, Document, Members};
use crate::model::{
    CityView, Clouds, Coord, Main, Rain, SysView, WeatherDataListView, WeatherDataView,
    WeatherView, Wind,
};
use vstd::prelude::*;

verus! {

/// The length of a name with its first and its last letter. No two names of
/// one record agree in all three.
spec fn marked(name: Seq<char>, len: nat, first: char, last: char) -> bool {
    name.len() == len && name.first() == first && name.last() == last
}

/// A point that is written and read again is the same point.
pub proof fn coord_round_trip(coord: Coord)
    ensures
        Coord::decoded(coord.document()) == Some(coord),
{
    reveal_strlit("lat");
    reveal_strlit("lon");
    assert(marked("lat"@, 3, 'l', 't'));
    assert(marked("lon"@, 3, 'l', 'n'));
    let members = coord.document()->Record_0;
    lookup_finds(members, "lat"@, 0);
    lookup_finds(members, "lon"@, 1);
}

/// A document that lacks a member that a point must have holds none.
pub proof fn coord_needs_members(doc: Document, name: Seq<char>)
    requires
        Coord::needs(name),
        doc.member(name) is None,
    ensures
        Coord::decoded(doc) is None,
{
}

/// A member of a name that is none of those that a point must have, put into
/// a record at any place, changes nothing of what is read from it.
pub proof fn coord_passes_over(members: Members, at: int, name: Seq<char>, value: Document)
    requires
        0 <= at <= members.len(),
        !Coord::needs(name),
    ensures
        Coord::decoded(Document::Record(members.insert(at, (name, value)))) == Coord::decoded(
            Document::Record(members),
        ),
{
    lookup_skips(members, at, (name, value), "lat"@);
    lookup_skips(members, at, (name, value), "lon"@);
}

/// Readings that are written and read again are the same readings.
pub proof fn main_round_trip(main: Main)
    ensures
        Main::decoded(main.document()) == Some(main),
{
    reveal_strlit("temp");
    reveal_strlit("feels_like");
    reveal_strlit("temp_min");
    reveal_strlit("temp_max");
    reveal_strlit("pressure");
    reveal_strlit("sea_level");
    reveal_strlit("grnd_level");
    reveal_strlit("humidity");
    reveal_strlit("temp_kf");
    assert(marked("temp"@, 4, 't', 'p'));
    assert(marked("feels_like"@, 10, 'f', 'e'));
    assert(marked("temp_min"@, 8, 't', 'n'));
    assert(marked("temp_max"@, 8, 't', 'x'));
    assert(marked("pressure"@, 8, 'p', 'e'));
    assert(marked("sea_level"@, 9, 's', 'l'));
    assert(marked("grnd_level"@, 10, 'g', 'l'));
    assert(marked("humidity"@, 8, 'h', 'y'));
    assert(marked("temp_kf"@, 7, 't', 'f'));
    let members = main.document()->Record_0;
    lookup_finds(members, "temp"@, 0);
    lookup_finds(members, "feels_like"@, 1);
    lookup_finds(members, "temp_min"@, 2);
    lookup_finds(members, "temp_max"@, 3);
    lookup_finds(members, "pressure"@, 4);
    lookup_finds(members, "sea_level"@, 5);
    lookup_finds(members, "grnd_level"@, 6);
    lookup_finds(members, "humidity"@, 7);
    lookup_finds(members, "temp_kf"@, 8);
}

/// A document that lacks a member that readings must have holds none.
pub proof fn main_needs_members(doc: Document, name: Seq<char>)
    requires
        Main::needs(name),
        doc.member(name) is None,
    ensures
        Main::decoded(doc) is None,
{
}

/// A member of a name that is none of those that readings must have, put into
/// a record at any place, changes nothing of what is read from it.
pub proof fn main_passes_over(members: Members, at: int, name: Seq<char>, value: Document)
    requires
        0 <= at <= members.len(),
        !Main::needs(name),
    ensures
        Main::decoded(Document::Record(members.insert(at, (name, value)))) == Main::decoded(
            Document::Record(members),
        ),
{
    lookup_skips(members, at, (name, value), "temp"@);
    lookup_skips(members, at, (name, value), "feels_like"@);
    lookup_skips(members, at, (name, value), "temp_min"@);
    lookup_skips(members, at, (name, value), "temp_max"@);
    lookup_skips(members, at, (name, value), "pressure"@);
    lookup_skips(members, at, (name, value), "sea_level"@);
    lookup_skips(members, at, (name, value), "grnd_level"@);
    lookup_skips(members, at, (name, value), "humidity"@);
    lookup_skips(members, at, (name, value), "temp_kf"@);
}

/// A cloud cover that is written and read again is the same cloud cover.
pub proof fn clouds_round_trip(clouds: Clouds)
    ensures
        Clouds::decoded(clouds.document()) == Some(clouds),
{
    reveal_strlit("all");
    let members = clouds.document()->Record_0;
    lookup_finds(members, "all"@, 0);
}

/// A document that lacks a member that a cloud cover must have holds none.
pub proof fn clouds_needs_members(doc: Document, name: Seq<char>)
    requires
        Clouds::needs(name),
        doc.member(name) is None,
    ensures
        Clouds::decoded(doc) is None,
{
}

/// A member of a name that is none of those that a cloud cover must have, put into
/// a record at any place, changes nothing of what is read from it.
pub proof fn clouds_passes_over(members: Members, at: int, name: Seq<char>, value: Document)
    requires
        0 <= at <= members.len(),
        !Clouds::needs(name),
    ensures
        Clouds::decoded(Document::Record(members.insert(at, (name, value)))) == Clouds::decoded(
            Document::Record(members),
        ),
{
    lookup_skips(members, at, (name, value), "all"@);
}

/// A wind that is written and read again is the same wind.
pub proof fn wind_round_trip(wind: Wind)
    ensures
        Wind::decoded(wind.document()) == Some(wind),
{
    reveal_strlit("speed");
    reveal_strlit("deg");
    reveal_strlit("gust");
    assert(marked("speed"@, 5, 's', 'd'));
    assert(marked("deg"@, 3, 'd', 'g'));
    assert(marked("gust"@, 4, 'g', 't'));
    let members = wind.document()->Record_0;
    lookup_finds(members, "speed"@, 0);
    lookup_finds(members, "deg"@, 1);
    lookup_finds(members, "gust"@, 2);
}

/// A document that lacks a member that a wind must have holds none.
pub proof fn wind_needs_members(doc: Document, name: Seq<char>)
    requires
        Wind::needs(name),
        doc.member(name) is None,
    ensures
        Wind::decoded(doc) is None,
{
}

/// A member of a name that is none of those that a wind must have, put into
/// a record at any place, changes nothing of what is read from it.
pub proof fn wind_passes_over(members: Members, at: int, name: Seq<char>, value: Document)
    requires
        0 <= at <= members.len(),
        !Wind::needs(name),
    ensures
        Wind::decoded(Document::Record(members.insert(at, (name, value)))) == Wind::decoded(
            Document::Record(members),
        ),
{
    lookup_skips(members, at, (name, value), "speed"@);
    lookup_skips(members, at, (name, value), "deg"@);
    lookup_skips(members, at, (name, value), "gust"@);
}

/// A rain that is written and read again is the same rain.
pub proof fn rain_round_trip(rain: Rain)
    ensures
        Rain::decoded(rain.document()) == Some(rain),
{
    reveal_strlit("3h");
    let members = rain.document()->Record_0;
    lookup_finds(members, "3h"@, 0);
}

/// A document that lacks a member that a rain must have holds none.
pub proof fn rain_needs_members(doc: Document, name: Seq<char>)
    requires
        Rain::needs(name),
        doc.member(name) is None,
    ensures
        Rain::decoded(doc) is None,
{
}

/// A member of a name that is none of those that a rain must have, put into
/// a record at any place, changes nothing of what is read from it.
pub proof fn rain_passes_over(members: Members, at: int, name: Seq<char>, value: Document)
    requires
        0 <= at <= members.len(),
        !Rain::needs(name),
    ensures
        Rain::decoded(Document::Record(members.insert(at, (name, value)))) == Rain::decoded(
            Document::Record(members),
        ),
{
    lookup_skips(members, at, (name, value), "3h"@);
}

/// A phenomenon that is written and read again is the same phenomenon.
pub proof fn weather_round_trip(weather: WeatherView)
    ensures
        WeatherView::decoded(weather.document()) == Some(weather),
{
    reveal_strlit("id");
    reveal_strlit("main");
    reveal_strlit("description");
    reveal_strlit("icon");
    assert(marked("id"@, 2, 'i', 'd'));
    assert(marked("main"@, 4, 'm', 'n'));
    assert(marked("description"@, 11, 'd', 'n'));
    assert(marked("icon"@, 4, 'i', 'n'));
    let members = weather.document()->Record_0;
    lookup_finds(members, "id"@, 0);
    lookup_finds(members, "main"@, 1);
    lookup_finds(members, "description"@, 2);
    lookup_finds(members, "icon"@, 3);
}

/// A document that lacks a member that a phenomenon must have holds none.
pub proof fn weather_needs_members(doc: Document, name: Seq<char>)
    requires
        WeatherView::needs(name),
        doc.member(name) is None,
    ensures
        WeatherView::decoded(doc) is None,
{
}

/// A member of a name that is none of those that a phenomenon must have, put into
/// a record at any place, changes nothing of what is read from it.
pub proof fn weather_passes_over(members: Members, at: int, name: Seq<char>, value: Document)
    requires
        0 <= at <= members.len(),
        !WeatherView::needs(name),
    ensures
        WeatherView::decoded(Document::Record(members.insert(at, (name, value)))) == WeatherView::decoded(
            Document::Record(members),
        ),
{
    lookup_skips(members, at, (name, value), "id"@);
    lookup_skips(members, at, (name, value), "main"@);
    lookup_skips(members, at, (name, value), "description"@);
    lookup_skips(members, at, (name, value), "icon"@);
}

/// A part of the day that is written and read again is the same part of the day.
pub proof fn sys_round_trip(sys: SysView)
    ensures
        SysView::decoded(sys.document()) == Some(sys),
{
    reveal_strlit("pod");
    let members = sys.document()->Record_0;
    lookup_finds(members, "pod"@, 0);
}

/// A document that lacks a member that a part of the day must have holds none.
pub proof fn sys_needs_members(doc: Document, name: Seq<char>)
    requires
        SysView::needs(name),
        doc.member(name) is None,
    ensures
        SysView::decoded(doc) is None,
{
}

/// A member of a name that is none of those that a part of the day must have, put into
/// a record at any place, changes nothing of what is read from it.
pub proof fn sys_passes_over(members: Members, at: int, name: Seq<char>, value: Document)
    requires
        0 <= at <= members.len(),
        !SysView::needs(name),
    ensures
        SysView::decoded(Document::Record(members.insert(at, (name, value)))) == SysView::decoded(
            Document::Record(members),
        ),
{
    lookup_skips(members, at, (name, value), "pod"@);
}

/// A place that is written and read again is the same place.
pub proof fn city_round_trip(city: CityView)
    ensures
        CityView::decoded(city.document()) == Some(city),
{
    reveal_strlit("id");
    reveal_strlit("name");
    reveal_strlit("coord");
    reveal_strlit("country");
    reveal_strlit("population");
    reveal_strlit("timezone");
    reveal_strlit("sunrise");
    reveal_strlit("sunset");
    assert(marked("id"@, 2, 'i', 'd'));
    assert(marked("name"@, 4, 'n', 'e'));
    assert(marked("coord"@, 5, 'c', 'd'));
    assert(marked("country"@, 7, 'c', 'y'));
    assert(marked("population"@, 10, 'p', 'n'));
    assert(marked("timezone"@, 8, 't', 'e'));
    assert(marked("sunrise"@, 7, 's', 'e'));
    assert(marked("sunset"@, 6, 's', 't'));
    let members = city.document()->Record_0;
    coord_round_trip(city.coord);
    lookup_finds(members, "id"@, 0);
    lookup_finds(members, "name"@, 1);
    lookup_finds(members, "coord"@, 2);
    lookup_finds(members, "country"@, 3);
    lookup_finds(members, "population"@, 4);
    lookup_finds(members, "timezone"@, 5);
    lookup_finds(members, "sunrise"@, 6);
    lookup_finds(members, "sunset"@, 7);
}

/// A document that lacks a member that a place must have holds none.
pub proof fn city_needs_members(doc: Document, name: Seq<char>)
    requires
        CityView::needs(name),
        doc.member(name) is None,
    ensures
        CityView::decoded(doc) is None,
{
}

/// A member of a name that is none of those that a place must have, put into
/// a record at any place, changes nothing of what is read from it.
pub proof fn city_passes_over(members: Members, at: int, name: Seq<char>, value: Document)
    requires
        0 <= at <= members.len(),
        !CityView::needs(name),
    ensures
        CityView::decoded(Document::Record(members.insert(at, (name, value)))) == CityView::decoded(
            Document::Record(members),
        ),
{
    lookup_skips(members, at, (name, value), "id"@);
    lookup_skips(members, at, (name, value), "name"@);
    lookup_skips(members, at, (name, value), "coord"@);
    lookup_skips(members, at, (name, value), "country"@);
    lookup_skips(members, at, (name, value), "population"@);
    lookup_skips(members, at, (name, value), "timezone"@);
    lookup_skips(members, at, (name, value), "sunrise"@);
    lookup_skips(members, at, (name, value), "sunset"@);
}

/// A forecast entry that is written and read again is the same forecast
/// entry. An entry without rain is written without a `rain` member and read
/// as an entry without rain; one with rain keeps it, under `rain` and `3h`.
pub proof fn entry_round_trip(entry: WeatherDataListView)
    ensures
        WeatherDataListView::decoded(entry.document()) == Some(entry),
{
    reveal_strlit("dt");
    reveal_strlit("main");
    reveal_strlit("weather");
    reveal_strlit("clouds");
    reveal_strlit("wind");
    reveal_strlit("visibility");
    reveal_strlit("pop");
    reveal_strlit("rain");
    reveal_strlit("sys");
    reveal_strlit("dt_txt");
    assert(marked("dt"@, 2, 'd', 't'));
    assert(marked("main"@, 4, 'm', 'n'));
    assert(marked("weather"@, 7, 'w', 'r'));
    assert(marked("clouds"@, 6, 'c', 's'));
    assert(marked("wind"@, 4, 'w', 'd'));
    assert(marked("visibility"@, 10, 'v', 'y'));
    assert(marked("pop"@, 3, 'p', 'p'));
    assert(marked("rain"@, 4, 'r', 'n'));
    assert(marked("sys"@, 3, 's', 's'));
    assert(marked("dt_txt"@, 6, 'd', 't'));
    let members = entry.document()->Record_0;
    main_round_trip(entry.main);
    clouds_round_trip(entry.clouds);
    wind_round_trip(entry.wind);
    sys_round_trip(entry.sys);
    let read = |d: Document| WeatherView::decoded(d);
    let written = entry.weather.map_values(|w: WeatherView| w.document());
    assert forall|i: int| 0 <= i < written.len() implies read(#[trigger] written[i]) == Some(
        entry.weather[i],
    ) by {
        weather_round_trip(entry.weather[i]);
    }
    assert(written.map_values(|item: Document| read(item).unwrap()) =~= entry.weather);
    lookup_finds(members, "dt"@, 0);
    lookup_finds(members, "main"@, 1);
    lookup_finds(members, "weather"@, 2);
    lookup_finds(members, "clouds"@, 3);
    lookup_finds(members, "wind"@, 4);
    lookup_finds(members, "visibility"@, 5);
    lookup_finds(members, "pop"@, 6);
    match entry.rain {
        Some(rain) => {
            rain_round_trip(rain);
            lookup_finds(members, "rain"@, 7);
            lookup_finds(members, "sys"@, 8);
            lookup_finds(members, "dt_txt"@, 9);
        },
        None => {
            lookup_misses(members, "rain"@);
            lookup_finds(members, "sys"@, 7);
            lookup_finds(members, "dt_txt"@, 8);
        },
    }
}

/// A document that lacks a member that a forecast entry must have holds none.
pub proof fn entry_needs_members(doc: Document, name: Seq<char>)
    requires
        WeatherDataListView::needs(name),
        doc.member(name) is None,
    ensures
        WeatherDataListView::decoded(doc) is None,
{
}

/// A member of a name that is neither `rain` nor one that a forecast entry
/// must have, put into a record at any place, changes nothing of what is
/// read from it.
pub proof fn entry_passes_over(members: Members, at: int, name: Seq<char>, value: Document)
    requires
        0 <= at <= members.len(),
        !WeatherDataListView::needs(name),
        name != "rain"@,
    ensures
        WeatherDataListView::decoded(Document::Record(members.insert(at, (name, value)))) == WeatherDataListView::decoded(
            Document::Record(members),
        ),
{
    lookup_skips(members, at, (name, value), "dt"@);
    lookup_skips(members, at, (name, value), "main"@);
    lookup_skips(members, at, (name, value), "weather"@);
    lookup_skips(members, at, (name, value), "clouds"@);
    lookup_skips(members, at, (name, value), "wind"@);
    lookup_skips(members, at, (name, value), "visibility"@);
    lookup_skips(members, at, (name, value), "pop"@);
    lookup_skips(members, at, (name, value), "rain"@);
    lookup_skips(members, at, (name, value), "sys"@);
    lookup_skips(members, at, (name, value), "dt_txt"@);
}

/// A forecast that is written and read again is the same forecast. This holds
/// whatever `cnt` says of the length of `list`.
pub proof fn forecast_round_trip(data: WeatherDataView)
    ensures
        WeatherDataView::decoded(data.document()) == Some(data),
{
    reveal_strlit("cod");
    reveal_strlit("message");
    reveal_strlit("cnt");
    reveal_strlit("list");
    reveal_strlit("city");
    assert(marked("cod"@, 3, 'c', 'd'));
    assert(marked("message"@, 7, 'm', 'e'));
    assert(marked("cnt"@, 3, 'c', 't'));
    assert(marked("list"@, 4, 'l', 't'));
    assert(marked("city"@, 4, 'c', 'y'));
    let members = data.document()->Record_0;
    city_round_trip(data.city);
    let read = |d: Document| WeatherDataListView::decoded(d);
    let written = data.list.map_values(|e: WeatherDataListView| e.document());
    assert forall|i: int| 0 <= i < written.len() implies read(#[trigger] written[i]) == Some(
        data.list[i],
    ) by {
        entry_round_trip(data.list[i]);
    }
    assert(written.map_values(|item: Document| read(item).unwrap()) =~= data.list);
    lookup_finds(members, "cod"@, 0);
    lookup_finds(members, "message"@, 1);
    lookup_finds(members, "cnt"@, 2);
    lookup_finds(members, "list"@, 3);
    lookup_finds(members, "city"@, 4);
}

/// A document that lacks a member that a forecast must have holds none.
pub proof fn forecast_needs_members(doc: Document, name: Seq<char>)
    requires
        WeatherDataView::needs(name),
        doc.member(name) is None,
    ensures
        WeatherDataView::decoded(doc) is None,
{
}

/// A member of a name that is none of those that a forecast must have, put into
/// a record at any place, changes nothing of what is read from it.
pub proof fn forecast_passes_over(members: Members, at: int, name: Seq<char>, value: Document)
    requires
        0 <= at <= members.len(),
        !WeatherDataView::needs(name),
    ensures
        WeatherDataView::decoded(Document::Record(members.insert(at, (name, value)))) == WeatherDataView::decoded(
            Document::Record(members),
        ),
{
    lookup_skips(members, at, (name, value), "cod"@);
    lookup_skips(members, at, (name, value), "message"@);
    lookup_skips(members, at, (name, value), "cnt"@);
    lookup_skips(members, at, (name, value), "list"@);
    lookup_skips(members, at, (name, value), "city"@);
}


} // verus!
