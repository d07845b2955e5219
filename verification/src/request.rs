//! The address that a forecast is asked from.

use vstd::prelude::*;
use vstd::string::StringExecFns;

verus! {

/// The key that the service is asked with. It stands for a real one, which
/// whoever builds the program puts in its place.
pub const API_KEY: &'static str = "API_KEY GOES HERE";

/// The address of the forecast for a latitude and a longitude, asked with `key`.
pub open spec fn url_of(lat: Seq<char>, lon: Seq<char>, key: Seq<char>) -> Seq<char> {
    "https://api.openweathermap.org/data/2.5/forecast?lat="@ + lat + "&lon="@ + lon
        + "&appid="@ + key
}

/// Builds the address of the forecast for `lat` and `lon`, asked with `key`.
/// The three are put in as they come: nothing is checked, trimmed or escaped.
pub fn forecast_url(lat: &str, lon: &str, key: &str) -> (url: String)
    ensures
        url@ == url_of(lat@, lon@, key@),
{
    let mut url = String::from_str("https://api.openweathermap.org/data/2.5/forecast?lat=");
    url.append(lat);
    url.append("&lon=");
    url.append(lon);
    url.append("&appid=");
    url.append(key);
    url
}

/// Builds the address of the forecast for `lat` and `lon`, asked with the
/// key that is built in.
pub fn request_url(lat: &str, lon: &str) -> (url: String)
    ensures
        url@ == url_of(lat@, lon@, API_KEY@),
{
    forecast_url(lat, lon, API_KEY)
}

} // verus!
