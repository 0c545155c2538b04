use crate::coords::Degrees;
use crate::text::{decimal, decimal_of};
use vstd::prelude::*;
use vstd::string::StringSliceAdditionalSpecFns;

verus! {

/// Bytes that URL encoding leaves as they are: ASCII letters, digits and `-._~`.
pub open spec fn is_unreserved(b: u8) -> bool {
    ||| 48 <= b <= 57
    ||| 65 <= b <= 90
    ||| 97 <= b <= 122
    ||| b == 45 || b == 46 || b == 95 || b == 126
}

/// Upper-case hex digit of `d < 16`.
pub open spec fn hex_digit(d: u8) -> char {
    if d < 10 {
        ((48 + d) as u8) as char
    } else {
        ((55 + d) as u8) as char
    }
}

/// One byte, URL-encoded.
pub open spec fn encoded_byte(b: u8) -> Seq<char> {
    if is_unreserved(b) {
        seq![b as char]
    } else {
        seq!['%', hex_digit(b / 16), hex_digit(b % 16)]
    }
}

/// A byte string, URL-encoded byte by byte.
pub open spec fn percent_encoded(bytes: Seq<u8>) -> Seq<char>
    decreases bytes.len(),
{
    if bytes.len() == 0 {
        Seq::empty()
    } else {
        percent_encoded(bytes.drop_last()) + encoded_byte(bytes.last())
    }
}

/// Relies on `urlencoding::encode`: each byte of the UTF-8 text except ASCII
/// alphanumerics and `-`, `.`, `_`, `~` becomes `%` and two upper-case hex digits.
#[verifier::external_body]
fn url_encode(s: &str) -> (r: String)
    ensures
        r@ == percent_encoded(s.spec_bytes()),
{
    urlencoding::encode(s).into_owned()
}

/// Fields asked for with current conditions.
pub open spec fn current_fields() -> Seq<char> {
    "temperature_2m,relative_humidity_2m,apparent_temperature,is_day,precipitation,rain,showers,snowfall,weather_code,cloud_cover,pressure_msl,surface_pressure,wind_speed_10m,wind_direction_10m,wind_gusts_10m"@
}

/// Daily fields asked for with a forecast.
pub open spec fn forecast_fields() -> Seq<char> {
    "weather_code,temperature_2m_max,temperature_2m_min,apparent_temperature_max,apparent_temperature_min,sunrise,sunset,daylight_duration,sunshine_duration,uv_index_max,precipitation_sum,rain_sum,showers_sum,snowfall_sum,precipitation_hours,precipitation_probability_max,wind_speed_10m_max,wind_gusts_10m_max,wind_direction_10m_dominant,shortwave_radiation_sum"@
}

/// Daily fields asked for from the archive.
pub open spec fn archive_fields() -> Seq<char> {
    "weather_code,temperature_2m_max,temperature_2m_min,temperature_2m_mean,apparent_temperature_max,apparent_temperature_min,apparent_temperature_mean,sunrise,sunset,daylight_duration,sunshine_duration,precipitation_sum,rain_sum,snowfall_sum,precipitation_hours,wind_speed_10m_max,wind_gusts_10m_max,wind_direction_10m_dominant"@
}

/// The URL for current conditions at a point.
pub open spec fn current_weather_url_of(lat: Seq<char>, lon: Seq<char>) -> Seq<char> {
    "https://api.open-meteo.com/v1/forecast?latitude="@ + lat + "&longitude="@ + lon
        + "&current="@ + current_fields()
}

/// The URL for a daily forecast of `days` days at a point.
pub open spec fn forecast_url_of(lat: Seq<char>, lon: Seq<char>, days: nat) -> Seq<char> {
    "https://api.open-meteo.com/v1/forecast?latitude="@ + lat + "&longitude="@ + lon + "&daily="@
        + forecast_fields() + "&forecast_days="@ + decimal_of(days)
}

/// The URL for archived daily data over a date range at a point.
pub open spec fn historical_url_of(
    lat: Seq<char>,
    lon: Seq<char>,
    start: Seq<char>,
    end: Seq<char>,
) -> Seq<char> {
    "https://api.open-meteo.com/v1/archive?latitude="@ + lat + "&longitude="@ + lon
        + "&start_date="@ + start + "&end_date="@ + end + "&daily="@ + archive_fields()
}

/// The URL for a place-name search returning at most `limit` matches.
pub open spec fn search_url_of(query: Seq<u8>, limit: nat) -> Seq<char> {
    "https://geocoding-api.open-meteo.com/v1/search?name="@ + percent_encoded(query) + "&count="@
        + decimal_of(limit) + "&language=en&format=json"@
}

/// Builds the current-conditions URL.
pub fn current_weather_url(latitude: &Degrees, longitude: &Degrees) -> (r: String)
    ensures
        r@ == current_weather_url_of(latitude.text@, longitude.text@),
{
    String::from_str("https://api.open-meteo.com/v1/forecast?latitude=").concat(
        latitude.text.as_str(),
    ).concat("&longitude=").concat(longitude.text.as_str()).concat("&current=").concat(
        "temperature_2m,relative_humidity_2m,apparent_temperature,is_day,precipitation,rain,showers,snowfall,weather_code,cloud_cover,pressure_msl,surface_pressure,wind_speed_10m,wind_direction_10m,wind_gusts_10m",
    )
}

/// Builds the daily-forecast URL.
pub fn forecast_url(latitude: &Degrees, longitude: &Degrees, days: u32) -> (r: String)
    ensures
        r@ == forecast_url_of(latitude.text@, longitude.text@, days as nat),
{
    let count = decimal(days as u64);
    String::from_str("https://api.open-meteo.com/v1/forecast?latitude=").concat(
        latitude.text.as_str(),
    ).concat("&longitude=").concat(longitude.text.as_str()).concat("&daily=").concat(
        "weather_code,temperature_2m_max,temperature_2m_min,apparent_temperature_max,apparent_temperature_min,sunrise,sunset,daylight_duration,sunshine_duration,uv_index_max,precipitation_sum,rain_sum,showers_sum,snowfall_sum,precipitation_hours,precipitation_probability_max,wind_speed_10m_max,wind_gusts_10m_max,wind_direction_10m_dominant,shortwave_radiation_sum",
    ).concat("&forecast_days=").concat(count.as_str())
}

/// Builds the archive URL for a date range; the dates are interpolated as given.
pub fn historical_url(latitude: &Degrees, longitude: &Degrees, start_date: &str, end_date: &str) -> (r:
    String)
    ensures
        r@ == historical_url_of(latitude.text@, longitude.text@, start_date@, end_date@),
{
    String::from_str("https://api.open-meteo.com/v1/archive?latitude=").concat(
        latitude.text.as_str(),
    ).concat("&longitude=").concat(longitude.text.as_str()).concat("&start_date=").concat(
        start_date,
    ).concat("&end_date=").concat(end_date).concat("&daily=").concat(
        "weather_code,temperature_2m_max,temperature_2m_min,temperature_2m_mean,apparent_temperature_max,apparent_temperature_min,apparent_temperature_mean,sunrise,sunset,daylight_duration,sunshine_duration,precipitation_sum,rain_sum,snowfall_sum,precipitation_hours,wind_speed_10m_max,wind_gusts_10m_max,wind_direction_10m_dominant",
    )
}

/// Builds the geocoding URL; the free-text query is URL-encoded.
pub fn search_url(query: &str, limit: u32) -> (r: String)
    ensures
        r@ == search_url_of(query.spec_bytes(), limit as nat),
{
    let name = url_encode(query);
    let count = decimal(limit as u64);
    String::from_str("https://geocoding-api.open-meteo.com/v1/search?name=").concat(
        name.as_str(),
    ).concat("&count=").concat(count.as_str()).concat("&language=en&format=json")
}

} // verus!
