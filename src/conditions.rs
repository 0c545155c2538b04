use vstd::prelude::*;

verus! {

/// The phrase for a WMO weather code; unmapped codes read "Unknown conditions".
pub open spec fn description_of(code: u64) -> Seq<char> {
    if code == 0 {
        "Clear sky"@
    } else if code == 1 {
        "Mainly clear"@
    } else if code == 2 {
        "Partly cloudy"@
    } else if code == 3 {
        "Overcast"@
    } else if code == 45 {
        "Fog"@
    } else if code == 48 {
        "Depositing rime fog"@
    } else if code == 51 {
        "Light drizzle"@
    } else if code == 53 {
        "Moderate drizzle"@
    } else if code == 55 {
        "Dense drizzle"@
    } else if code == 56 {
        "Light freezing drizzle"@
    } else if code == 57 {
        "Dense freezing drizzle"@
    } else if code == 61 {
        "Slight rain"@
    } else if code == 63 {
        "Moderate rain"@
    } else if code == 65 {
        "Heavy rain"@
    } else if code == 66 {
        "Light freezing rain"@
    } else if code == 67 {
        "Heavy freezing rain"@
    } else if code == 71 {
        "Slight snow fall"@
    } else if code == 73 {
        "Moderate snow fall"@
    } else if code == 75 {
        "Heavy snow fall"@
    } else if code == 77 {
        "Snow grains"@
    } else if code == 80 {
        "Slight rain showers"@
    } else if code == 81 {
        "Moderate rain showers"@
    } else if code == 82 {
        "Violent rain showers"@
    } else if code == 85 {
        "Slight snow showers"@
    } else if code == 86 {
        "Heavy snow showers"@
    } else if code == 95 {
        "Thunderstorm"@
    } else if code == 96 {
        "Thunderstorm with slight hail"@
    } else if code == 99 {
        "Thunderstorm with heavy hail"@
    } else {
        "Unknown conditions"@
    }
}

/// The codes that the table maps to a phrase of their own.
pub open spec fn is_known_code(code: u64) -> bool {
    ||| code <= 3
    ||| code == 45 || code == 48
    ||| code == 51 || code == 53 || code == 55 || code == 56 || code == 57
    ||| code == 61 || code == 63 || code == 65 || code == 66 || code == 67
    ||| code == 71 || code == 73 || code == 75 || code == 77
    ||| code == 80 || code == 81 || code == 82 || code == 85 || code == 86
    ||| code == 95 || code == 96 || code == 99
}

/// Translates a weather code into a short English phrase. The day/night flag
/// is accepted for interface stability and does not change the phrase.
pub fn get_weather_description(code: u64, is_day: bool) -> (r: &'static str)
    ensures
        r@ == description_of(code),
{
    match code {
        0 => "Clear sky",
        1 => "Mainly clear",
        2 => "Partly cloudy",
        3 => "Overcast",
        45 => "Fog",
        48 => "Depositing rime fog",
        51 => "Light drizzle",
        53 => "Moderate drizzle",
        55 => "Dense drizzle",
        56 => "Light freezing drizzle",
        57 => "Dense freezing drizzle",
        61 => "Slight rain",
        63 => "Moderate rain",
        65 => "Heavy rain",
        66 => "Light freezing rain",
        67 => "Heavy freezing rain",
        71 => "Slight snow fall",
        73 => "Moderate snow fall",
        75 => "Heavy snow fall",
        77 => "Snow grains",
        80 => "Slight rain showers",
        81 => "Moderate rain showers",
        82 => "Violent rain showers",
        85 => "Slight snow showers",
        86 => "Heavy snow showers",
        95 => "Thunderstorm",
        96 => "Thunderstorm with slight hail",
        99 => "Thunderstorm with heavy hail",
        _ => "Unknown conditions",
    }
}

/// Every code outside the table reads "Unknown conditions", whatever the
/// day/night flag says.
pub proof fn lemma_unknown_codes(code: u64)
    requires
        !is_known_code(code),
    ensures
        description_of(code) == "Unknown conditions"@,
{
}

} // verus!
