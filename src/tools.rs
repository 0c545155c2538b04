use crate::coords::{coordinates_check, validate_coordinates, Degrees};
use crate::dates::{date_error_text, iso_date_of, validate_date};
use crate::params::{forecast_days, location_limit, clamped, given_or, DEFAULT_FORECAST_DAYS, DEFAULT_LOCATION_LIMIT, MAX_FORECAST_DAYS, MAX_LOCATION_LIMIT};
use crate::query::{
    current_weather_url, current_weather_url_of, forecast_url, forecast_url_of, historical_url,
    historical_url_of, search_url, search_url_of,
};
use vstd::prelude::*;
use vstd::string::StringSliceAdditionalSpecFns;

verus! {

/// The four operations offered to callers.
#[derive(Clone, Copy, Debug, PartialEq, Eq, Structural)]
pub enum Tool {
    CurrentWeather,
    WeatherForecast,
    HistoricalWeather,
    SearchLocations,
}

/// What a tool hands back: a text payload that reports success or failure.
#[derive(Debug)]
pub enum ToolResult {
    Success(String),
    Failure(String),
}

/// The outbound request of a forecast: its URL and the window it asks for.
pub struct ForecastRequest {
    pub url: String,
    pub days: u32,
}

/// The outbound request of a place-name search: its URL and result limit.
pub struct SearchRequest {
    pub url: String,
    pub limit: u32,
}

/// The words that open a tool's error when the provider failed.
pub open spec fn failure_prefix(tool: Tool) -> Seq<char> {
    match tool {
        Tool::CurrentWeather => "Error retrieving current weather: "@,
        Tool::WeatherForecast => "Error retrieving weather forecast: "@,
        Tool::HistoricalWeather => "Error retrieving historical weather: "@,
        Tool::SearchLocations => "Error searching locations: "@,
    }
}

/// The payload of a tool once its request has been answered: the report
/// text, or the provider error behind the tool's prefix.
pub open spec fn outcome_payload(tool: Tool, outcome: Result<Seq<char>, Seq<char>>) -> (bool, Seq<
    char,
>) {
    match outcome {
        Ok(text) => (true, text),
        Err(e) => (false, failure_prefix(tool) + e),
    }
}

impl ToolResult {
    /// Success flag and text of the payload.
    pub open spec fn payload(self) -> (bool, Seq<char>) {
        match self {
            ToolResult::Success(t) => (true, t@),
            ToolResult::Failure(t) => (false, t@),
        }
    }

    /// Whether the payload reports success.
    pub fn is_success(&self) -> (r: bool)
        ensures
            r == self.payload().0,
    {
        match self {
            ToolResult::Success(_) => true,
            ToolResult::Failure(_) => false,
        }
    }

    /// The text of the payload.
    pub fn text(&self) -> (r: String)
        ensures
            r@ == self.payload().1,
    {
        match self {
            ToolResult::Success(t) => t.clone(),
            ToolResult::Failure(t) => t.clone(),
        }
    }
}

/// Turns the answer to a tool's request into its payload: the formatted
/// report on success, the provider error behind the tool's prefix otherwise.
pub fn conclude(tool: Tool, outcome: Result<String, String>) -> (r: ToolResult)
    ensures
        r.payload() == outcome_payload(
            tool,
            match outcome {
                Ok(t) => Ok(t@),
                Err(e) => Err(e@),
            },
        ),
{
    match outcome {
        Ok(text) => ToolResult::Success(text),
        Err(e) => {
            let prefix = match tool {
                Tool::CurrentWeather => "Error retrieving current weather: ",
                Tool::WeatherForecast => "Error retrieving weather forecast: ",
                Tool::HistoricalWeather => "Error retrieving historical weather: ",
                Tool::SearchLocations => "Error searching locations: ",
            };
            ToolResult::Failure(String::from_str(prefix).concat(e.as_str()))
        },
    }
}

/// Validates a current-weather call and builds its request. An error is the
/// call's failure payload, and no request exists to be sent.
pub fn plan_current_weather(latitude: &Degrees, longitude: &Degrees) -> (r: Result<String, String>)
    ensures
        r.is_err() == coordinates_check(*latitude, *longitude).is_err(),
        r matches Err(m) ==> coordinates_check(*latitude, *longitude) == Err::<(), Seq<char>>(m@),
        r matches Ok(url) ==> url@ == current_weather_url_of(latitude.text@, longitude.text@),
{
    match validate_coordinates(latitude, longitude) {
        Err(m) => Err(m),
        Ok(()) => Ok(current_weather_url(latitude, longitude)),
    }
}

/// Validates a forecast call, settles its window (7 days when absent, held to
/// [1, 16]) and builds its request.
pub fn plan_weather_forecast(latitude: &Degrees, longitude: &Degrees, days: Option<u32>) -> (r:
    Result<ForecastRequest, String>)
    ensures
        r.is_err() == coordinates_check(*latitude, *longitude).is_err(),
        r matches Err(m) ==> coordinates_check(*latitude, *longitude) == Err::<(), Seq<char>>(m@),
        r matches Ok(req) ==> req.days == clamped(
            given_or(days, DEFAULT_FORECAST_DAYS),
            1,
            MAX_FORECAST_DAYS as int,
        ) && req.url@ == forecast_url_of(latitude.text@, longitude.text@, req.days as nat),
{
    let window = forecast_days(days);
    match validate_coordinates(latitude, longitude) {
        Err(m) => Err(m),
        Ok(()) => Ok(ForecastRequest { url: forecast_url(latitude, longitude, window), days: window }),
    }
}

/// Validates an archive call (coordinates, then start date, then end date)
/// and builds its request. The order of the two dates is not checked.
pub fn plan_historical_weather(
    latitude: &Degrees,
    longitude: &Degrees,
    start_date: &str,
    end_date: &str,
) -> (r: Result<String, String>)
    ensures
        r.is_err() == (coordinates_check(*latitude, *longitude).is_err() || iso_date_of(
            start_date@,
        ).is_none() || iso_date_of(end_date@).is_none()),
        r matches Err(m) ==> if coordinates_check(*latitude, *longitude).is_err() {
            coordinates_check(*latitude, *longitude) == Err::<(), Seq<char>>(m@)
        } else if iso_date_of(start_date@).is_none() {
            m@ == date_error_text(start_date@)
        } else {
            m@ == date_error_text(end_date@)
        },
        r matches Ok(url) ==> url@ == historical_url_of(
            latitude.text@,
            longitude.text@,
            start_date@,
            end_date@,
        ),
{
    match validate_coordinates(latitude, longitude) {
        Err(m) => {
            return Err(m);
        },
        Ok(()) => {},
    }
    match validate_date(start_date) {
        Err(m) => {
            return Err(m);
        },
        Ok(_) => {},
    }
    match validate_date(end_date) {
        Err(m) => {
            return Err(m);
        },
        Ok(_) => {},
    }
    Ok(historical_url(latitude, longitude, start_date, end_date))
}

/// Settles the limit of a place-name search (10 when absent, held to
/// [1, 100]) and builds its request; the query needs no validation.
pub fn plan_search_locations(query: &str, limit: Option<u32>) -> (r: SearchRequest)
    ensures
        r.limit == clamped(given_or(limit, DEFAULT_LOCATION_LIMIT), 1, MAX_LOCATION_LIMIT as int),
        r.url@ == search_url_of(query.spec_bytes(), r.limit as nat),
{
    let count = location_limit(limit);
    SearchRequest { url: search_url(query, count), limit: count }
}

} // verus!
