use crate::conditions::{description_of, get_weather_description};
use crate::text::{decimal, decimal_of, opt_view, text_or, text_or_default};
use vstd::prelude::*;

verus! {

// Readings arrive with each number already rendered as text at the precision
// the report shows it with; a reading the provider left out, or gave in
// another shape, is `None` and falls back to a default.

/// Current conditions at one point in time.
pub struct CurrentSnapshot {
    pub time: Option<String>,
    /// Air temperature, one decimal.
    pub temperature: Option<String>,
    /// Apparent temperature, one decimal.
    pub feels_like: Option<String>,
    /// Relative humidity, no decimals.
    pub humidity: Option<String>,
    /// Precipitation, one decimal.
    pub precipitation: Option<String>,
    /// Wind speed, one decimal.
    pub wind_speed: Option<String>,
    /// Wind direction in degrees, shortest rendering.
    pub wind_direction: Option<String>,
    /// Cloud cover, no decimals.
    pub cloud_cover: Option<String>,
    /// Sea-level pressure, one decimal.
    pub pressure: Option<String>,
    pub weather_code: Option<u64>,
    pub is_day: Option<u64>,
    pub temperature_unit: Option<String>,
    pub humidity_unit: Option<String>,
    pub precipitation_unit: Option<String>,
    pub wind_speed_unit: Option<String>,
    pub pressure_unit: Option<String>,
}

/// A reading's text, or `fallback` when it is missing.
pub open spec fn field(v: Option<String>, fallback: Seq<char>) -> Seq<char> {
    text_or(opt_view(v), fallback)
}

/// A weather code, 0 when missing.
pub open spec fn code_or_zero(v: Option<u64>) -> u64 {
    match v {
        Some(c) => c,
        None => 0,
    }
}

/// The current-conditions report; `lat` and `lon` are rendered with two decimals.
pub open spec fn current_report(s: CurrentSnapshot, lat: Seq<char>, lon: Seq<char>) -> Seq<char> {
    let tu = field(s.temperature_unit, "°C"@);
    "🌍 Current Weather\nLocation: "@ + lat + "°, "@ + lon + "°\nTime: "@ + field(
        s.time,
        "Unknown"@,
    ) + "\n\n🌡️ Temperature: "@ + field(s.temperature, "0.0"@) + tu + "\n🤔 Feels like: "@
        + field(s.feels_like, "0.0"@) + tu + "\n💧 Humidity: "@ + field(s.humidity, "0"@) + field(
        s.humidity_unit,
        "%"@,
    ) + "\n☔ Precipitation: "@ + field(s.precipitation, "0.0"@) + field(
        s.precipitation_unit,
        "mm"@,
    ) + "\n💨 Wind: "@ + field(s.wind_speed, "0.0"@) + field(s.wind_speed_unit, "km/h"@)
        + " from "@ + field(s.wind_direction, "0"@) + "°\n🌫️ Cloud cover: "@ + field(
        s.cloud_cover,
        "0"@,
    ) + "%\n📊 Pressure: "@ + field(s.pressure, "0.0"@) + field(s.pressure_unit, "hPa"@)
        + "\n☀️ Conditions: "@ + description_of(code_or_zero(s.weather_code))
}

/// Renders current conditions; `latitude` and `longitude` are the coordinates
/// rendered with two decimals. Every missing reading takes its default.
pub fn format_current_weather(data: &CurrentSnapshot, latitude: &str, longitude: &str) -> (r:
    String)
    ensures
        r@ == current_report(*data, latitude@, longitude@),
{
    let tu = text_or_default(&data.temperature_unit, "°C");
    let time = text_or_default(&data.time, "Unknown");
    let temperature = text_or_default(&data.temperature, "0.0");
    let feels_like = text_or_default(&data.feels_like, "0.0");
    let humidity = text_or_default(&data.humidity, "0");
    let humidity_unit = text_or_default(&data.humidity_unit, "%");
    let precipitation = text_or_default(&data.precipitation, "0.0");
    let precipitation_unit = text_or_default(&data.precipitation_unit, "mm");
    let wind_speed = text_or_default(&data.wind_speed, "0.0");
    let wind_unit = text_or_default(&data.wind_speed_unit, "km/h");
    let wind_direction = text_or_default(&data.wind_direction, "0");
    let cloud_cover = text_or_default(&data.cloud_cover, "0");
    let pressure = text_or_default(&data.pressure, "0.0");
    let pressure_unit = text_or_default(&data.pressure_unit, "hPa");
    let code = match data.weather_code {
        Some(c) => c,
        None => 0,
    };
    let is_day = match data.is_day {
        Some(d) => d == 1,
        None => false,
    };
    let conditions = get_weather_description(code, is_day);
    String::from_str("🌍 Current Weather\nLocation: ").concat(latitude).concat("°, ").concat(
        longitude,
    ).concat("°\nTime: ").concat(time.as_str()).concat("\n\n🌡️ Temperature: ").concat(
        temperature.as_str(),
    ).concat(tu.as_str()).concat("\n🤔 Feels like: ").concat(feels_like.as_str()).concat(
        tu.as_str(),
    ).concat("\n💧 Humidity: ").concat(humidity.as_str()).concat(humidity_unit.as_str()).concat(
        "\n☔ Precipitation: ",
    ).concat(precipitation.as_str()).concat(precipitation_unit.as_str()).concat(
        "\n💨 Wind: ",
    ).concat(wind_speed.as_str()).concat(wind_unit.as_str()).concat(" from ").concat(
        wind_direction.as_str(),
    ).concat("°\n🌫️ Cloud cover: ").concat(cloud_cover.as_str()).concat(
        "%\n📊 Pressure: ",
    ).concat(pressure.as_str()).concat(pressure_unit.as_str()).concat("\n☀️ Conditions: ").concat(
        conditions,
    )
}

/// Formatting is a function of its inputs: two renderings of the same
/// snapshot at the same place are the same text.
pub proof fn lemma_current_report_stable(
    s: CurrentSnapshot,
    lat: Seq<char>,
    lon: Seq<char>,
    first: Seq<char>,
    second: Seq<char>,
)
    requires
        first == current_report(s, lat, lon),
        second == current_report(s, lat, lon),
    ensures
        first == second,
{
}

/// Units of the daily series.
pub struct DailyUnits {
    pub temperature: Option<String>,
    pub precipitation: Option<String>,
    pub wind_speed: Option<String>,
}

/// One day of a forecast series; numbers with one decimal.
pub struct ForecastDay {
    pub date: Option<String>,
    pub max_temperature: Option<String>,
    pub min_temperature: Option<String>,
    pub weather_code: Option<u64>,
    pub precipitation: Option<String>,
    pub wind_speed: Option<String>,
}

/// The smaller of two counts.
pub open spec fn min_nat(a: nat, b: nat) -> nat {
    if a < b {
        a
    } else {
        b
    }
}

/// The report block of one forecast day; forecast days read as daytime.
pub open spec fn forecast_entry(d: ForecastDay, units: DailyUnits) -> Seq<char> {
    let tu = field(units.temperature, "°C"@);
    "📅 "@ + field(d.date, "Unknown"@) + "\n🌡️ "@ + field(d.max_temperature, "0.0"@) + tu
        + " / "@ + field(d.min_temperature, "0.0"@) + tu + "\n☀️ "@ + description_of(
        code_or_zero(d.weather_code),
    ) + "\n☔ "@ + field(d.precipitation, "0.0"@) + field(units.precipitation, "mm"@)
        + "\n💨 "@ + field(d.wind_speed, "0.0"@) + field(units.wind_speed, "km/h"@) + "\n\n"@
}

/// The blocks of the first `n` forecast days.
pub open spec fn forecast_entries(s: Seq<ForecastDay>, units: DailyUnits, n: nat) -> Seq<char>
    decreases n,
{
    if n == 0 || n > s.len() {
        Seq::empty()
    } else {
        forecast_entries(s, units, (n - 1) as nat) + forecast_entry(s[n - 1], units)
    }
}

/// The forecast report: a header naming the window, then one block for each
/// of the first `days` days that the series holds.
pub open spec fn forecast_report(
    s: Seq<ForecastDay>,
    units: DailyUnits,
    lat: Seq<char>,
    lon: Seq<char>,
    days: nat,
) -> Seq<char> {
    "🌍 "@ + decimal_of(days) + "-Day Weather Forecast\nLocation: "@ + lat + "°, "@ + lon
        + "°\n\n"@ + forecast_entries(s, units, min_nat(days, s.len()))
}

fn forecast_entry_text(d: &ForecastDay, units: &DailyUnits) -> (r: String)
    ensures
        r@ == forecast_entry(*d, *units),
{
    let tu = text_or_default(&units.temperature, "°C");
    let pu = text_or_default(&units.precipitation, "mm");
    let wu = text_or_default(&units.wind_speed, "km/h");
    let date = text_or_default(&d.date, "Unknown");
    let max_t = text_or_default(&d.max_temperature, "0.0");
    let min_t = text_or_default(&d.min_temperature, "0.0");
    let precipitation = text_or_default(&d.precipitation, "0.0");
    let wind = text_or_default(&d.wind_speed, "0.0");
    let code = match d.weather_code {
        Some(c) => c,
        None => 0,
    };
    let conditions = get_weather_description(code, true);
    String::from_str("📅 ").concat(date.as_str()).concat("\n🌡️ ").concat(max_t.as_str()).concat(
        tu.as_str(),
    ).concat(" / ").concat(min_t.as_str()).concat(tu.as_str()).concat("\n☀️ ").concat(
        conditions,
    ).concat("\n☔ ").concat(precipitation.as_str()).concat(pu.as_str()).concat("\n💨 ").concat(
        wind.as_str(),
    ).concat(wu.as_str()).concat("\n\n")
}

/// Renders a forecast of `days` days; `latitude` and `longitude` are rendered
/// with two decimals. A series shorter than the window ends the list early.
pub fn format_weather_forecast(
    data: &Vec<ForecastDay>,
    units: &DailyUnits,
    latitude: &str,
    longitude: &str,
    days: u32,
) -> (r: String)
    ensures
        r@ == forecast_report(data@, *units, latitude@, longitude@, days as nat),
{
    let count = decimal(days as u64);
    let mut out = String::from_str("🌍 ").concat(count.as_str()).concat(
        "-Day Weather Forecast\nLocation: ",
    ).concat(latitude).concat("°, ").concat(longitude).concat("°\n\n");
    let ghost header = out@;
    let n: usize = if (days as usize) < data.len() {
        days as usize
    } else {
        data.len()
    };
    let mut i: usize = 0;
    while i < n
        invariant
            n == min_nat(days as nat, data@.len()),
            0 <= i <= n,
            header + forecast_entries(data@, *units, min_nat(days as nat, data@.len()))
                == forecast_report(data@, *units, latitude@, longitude@, days as nat),
            out@ == header + forecast_entries(data@, *units, i as nat),
        decreases n - i,
    {
        let entry = forecast_entry_text(&data[i], units);
        out = out.concat(entry.as_str());
        i = i + 1;
        assert(out@ =~= header + forecast_entries(data@, *units, i as nat));
    }
    out
}

/// One day of an archive series; numbers with one decimal.
pub struct HistoricalDay {
    pub date: Option<String>,
    pub max_temperature: Option<String>,
    pub min_temperature: Option<String>,
    pub mean_temperature: Option<String>,
    pub precipitation: Option<String>,
}

/// Aggregates over the complete days of an archive series, rendered with one
/// decimal.
pub struct HistoricalSummary {
    pub average_high: String,
    pub average_low: String,
    pub average_mean: String,
    pub total_precipitation: String,
    pub average_precipitation: String,
}

/// A day that has all four of high, low, mean and precipitation.
pub open spec fn is_complete(d: HistoricalDay) -> bool {
    d.max_temperature.is_some() && d.min_temperature.is_some() && d.mean_temperature.is_some()
        && d.precipitation.is_some()
}

/// The indices below `n` of the complete days, in increasing order.
pub open spec fn complete_indices(s: Seq<HistoricalDay>, n: nat) -> Seq<int>
    decreases n,
{
    if n == 0 || n > s.len() {
        Seq::empty()
    } else if is_complete(s[n - 1]) {
        complete_indices(s, (n - 1) as nat).push(n - 1)
    } else {
        complete_indices(s, (n - 1) as nat)
    }
}

/// The indices of the complete days of a series: those that the aggregates
/// are taken over.
pub fn complete_days(data: &Vec<HistoricalDay>) -> (r: Vec<usize>)
    ensures
        r@.map_values(|i: usize| i as int) == complete_indices(data@, data@.len()),
{
    let mut r: Vec<usize> = Vec::new();
    let mut i: usize = 0;
    while i < data.len()
        invariant
            0 <= i <= data@.len(),
            r@.map_values(|k: usize| k as int) == complete_indices(data@, i as nat),
        decreases data@.len() - i,
    {
        let d = &data[i];
        if d.max_temperature.is_some() && d.min_temperature.is_some()
            && d.mean_temperature.is_some() && d.precipitation.is_some() {
            r.push(i);
        }
        i = i + 1;
        assert(r@.map_values(|k: usize| k as int) =~= complete_indices(data@, i as nat));
    }
    r
}

/// The summary block over `count` complete days.
pub open spec fn summary_block(count: nat, a: HistoricalSummary, units: DailyUnits) -> Seq<char> {
    let tu = field(units.temperature, "°C"@);
    let pu = field(units.precipitation, "mm"@);
    "📊 Summary Statistics ("@ + decimal_of(count) + " days):\n🌡️ Average High: "@
        + a.average_high@ + tu + "\n🌡️ Average Low: "@ + a.average_low@ + tu
        + "\n🌡️ Average Mean: "@ + a.average_mean@ + tu + "\n☔ Total Precipitation: "@
        + a.total_precipitation@ + pu + "\n☔ Average Daily Precipitation: "@
        + a.average_precipitation@ + pu + "\n\n"@
}

/// Longest daily preview of an archive report.
pub const PREVIEW_DAYS: usize = 5;

/// The preview line of one archive day.
pub open spec fn preview_line(d: HistoricalDay, units: DailyUnits) -> Seq<char> {
    let tu = field(units.temperature, "°C"@);
    field(d.date, "Unknown"@) + ": "@ + field(d.max_temperature, "0.0"@) + tu + " / "@ + field(
        d.min_temperature,
        "0.0"@,
    ) + tu + ", "@ + field(d.precipitation, "0.0"@) + field(units.precipitation, "mm"@) + "\n"@
}

/// The preview lines of the first `n` archive days.
pub open spec fn preview_lines(s: Seq<HistoricalDay>, units: DailyUnits, n: nat) -> Seq<char>
    decreases n,
{
    if n == 0 || n > s.len() {
        Seq::empty()
    } else {
        preview_lines(s, units, (n - 1) as nat) + preview_line(s[n - 1], units)
    }
}

/// The archive report: header, the summary when some day is complete, and a
/// preview of at most five days, each defaulted on its own.
pub open spec fn historical_report(
    s: Seq<HistoricalDay>,
    units: DailyUnits,
    summary: HistoricalSummary,
    lat: Seq<char>,
    lon: Seq<char>,
    start: Seq<char>,
    end: Seq<char>,
) -> Seq<char> {
    let count = complete_indices(s, s.len()).len();
    "🌍 Historical Weather Data\nLocation: "@ + lat + "°, "@ + lon + "°\nPeriod: "@ + start
        + " to "@ + end + "\n\n"@ + (if count > 0 {
        summary_block(count, summary, units)
    } else {
        Seq::empty()
    }) + "📅 Daily Data (first 5 days):\n"@ + preview_lines(
        s,
        units,
        min_nat(PREVIEW_DAYS as nat, s.len()),
    )
}

fn summary_text(count: usize, a: &HistoricalSummary, units: &DailyUnits) -> (r: String)
    ensures
        r@ == summary_block(count as nat, *a, *units),
{
    let tu = text_or_default(&units.temperature, "°C");
    let pu = text_or_default(&units.precipitation, "mm");
    let days = decimal(count as u64);
    String::from_str("📊 Summary Statistics (").concat(days.as_str()).concat(
        " days):\n🌡️ Average High: ",
    ).concat(a.average_high.as_str()).concat(tu.as_str()).concat("\n🌡️ Average Low: ").concat(
        a.average_low.as_str(),
    ).concat(tu.as_str()).concat("\n🌡️ Average Mean: ").concat(a.average_mean.as_str()).concat(
        tu.as_str(),
    ).concat("\n☔ Total Precipitation: ").concat(a.total_precipitation.as_str()).concat(
        pu.as_str(),
    ).concat("\n☔ Average Daily Precipitation: ").concat(a.average_precipitation.as_str()).concat(
        pu.as_str(),
    ).concat("\n\n")
}

fn preview_line_text(d: &HistoricalDay, units: &DailyUnits) -> (r: String)
    ensures
        r@ == preview_line(*d, *units),
{
    let tu = text_or_default(&units.temperature, "°C");
    let pu = text_or_default(&units.precipitation, "mm");
    let date = text_or_default(&d.date, "Unknown");
    let max_t = text_or_default(&d.max_temperature, "0.0");
    let min_t = text_or_default(&d.min_temperature, "0.0");
    let precipitation = text_or_default(&d.precipitation, "0.0");
    date.concat(": ").concat(max_t.as_str()).concat(tu.as_str()).concat(" / ").concat(
        min_t.as_str(),
    ).concat(tu.as_str()).concat(", ").concat(precipitation.as_str()).concat(pu.as_str()).concat(
        "\n",
    )
}

/// Renders archived daily data for a date range; `latitude` and `longitude`
/// are rendered with two decimals, `summary` holds the aggregates over the
/// days that `complete_days` selects and is shown only when there are some.
pub fn format_historical_weather(
    data: &Vec<HistoricalDay>,
    units: &DailyUnits,
    summary: &HistoricalSummary,
    latitude: &str,
    longitude: &str,
    start_date: &str,
    end_date: &str,
) -> (r: String)
    ensures
        r@ == historical_report(
            data@,
            *units,
            *summary,
            latitude@,
            longitude@,
            start_date@,
            end_date@,
        ),
{
    let mut out = String::from_str("🌍 Historical Weather Data\nLocation: ").concat(latitude).concat(
        "°, ",
    ).concat(longitude).concat("°\nPeriod: ").concat(start_date).concat(" to ").concat(
        end_date,
    ).concat("\n\n");
    let complete = complete_days(data);
    proof {
        assert(complete@.len() == complete@.map_values(|i: usize| i as int).len());
    }
    if complete.len() > 0 {
        let block = summary_text(complete.len(), summary, units);
        out = out.concat(block.as_str());
    }
    out = out.concat("📅 Daily Data (first 5 days):\n");
    let ghost header = out@;
    let n: usize = if PREVIEW_DAYS < data.len() {
        PREVIEW_DAYS
    } else {
        data.len()
    };
    let mut i: usize = 0;
    while i < n
        invariant
            n == min_nat(PREVIEW_DAYS as nat, data@.len()),
            0 <= i <= n,
            out@ == header + preview_lines(data@, *units, i as nat),
        decreases n - i,
    {
        let line = preview_line_text(&data[i], units);
        out = out.concat(line.as_str());
        i = i + 1;
        assert(out@ =~= header + preview_lines(data@, *units, i as nat));
    }
    assert(out@ =~= historical_report(
        data@,
        *units,
        *summary,
        latitude@,
        longitude@,
        start_date@,
        end_date@,
    ));
    out
}

/// One match of a place-name search; coordinates with four decimals.
pub struct LocationMatch {
    pub name: Option<String>,
    pub country: Option<String>,
    pub admin1: Option<String>,
    pub latitude: Option<String>,
    pub longitude: Option<String>,
    pub timezone: Option<String>,
    pub population: Option<u64>,
}

/// The reply when a search matched nothing.
pub open spec fn no_locations_text() -> Seq<char> {
    "No locations found matching your search query."@
}

/// The entry of the match numbered `number` (counting from 1); the region and
/// the population appear only when given.
pub open spec fn location_entry(m: LocationMatch, number: nat) -> Seq<char> {
    decimal_of(number) + ". 📍 "@ + field(m.name, "Unknown"@) + (match m.admin1 {
        Some(a) => ", "@ + a@,
        None => Seq::empty(),
    }) + ", "@ + field(m.country, "Unknown"@) + "\n📍 Coordinates: "@ + field(
        m.latitude,
        "0.0000"@,
    ) + "°, "@ + field(m.longitude, "0.0000"@) + "°\n🕐 Timezone: "@ + field(
        m.timezone,
        "Unknown"@,
    ) + (match m.population {
        Some(p) => "\n👥 Population: "@ + decimal_of(p as nat),
        None => Seq::empty(),
    }) + "\n\n"@
}

/// The entries of the first `n` matches.
pub open spec fn location_entries(s: Seq<LocationMatch>, n: nat) -> Seq<char>
    decreases n,
{
    if n == 0 || n > s.len() {
        Seq::empty()
    } else {
        location_entries(s, (n - 1) as nat) + location_entry(s[n - 1], n)
    }
}

/// The search report: a fixed message when nothing matched, else a numbered list.
pub open spec fn locations_report(s: Seq<LocationMatch>) -> Seq<char> {
    if s.len() == 0 {
        no_locations_text()
    } else {
        "🌍 Location Search Results:\n\n"@ + location_entries(s, s.len())
    }
}

fn location_entry_text(m: &LocationMatch, number: u64) -> (r: String)
    ensures
        r@ == location_entry(*m, number as nat),
{
    let name = text_or_default(&m.name, "Unknown");
    let country = text_or_default(&m.country, "Unknown");
    let latitude = text_or_default(&m.latitude, "0.0000");
    let longitude = text_or_default(&m.longitude, "0.0000");
    let timezone = text_or_default(&m.timezone, "Unknown");
    let admin = match &m.admin1 {
        Some(a) => String::from_str(", ").concat(a.as_str()),
        None => String::new(),
    };
    let population = match m.population {
        Some(p) => {
            let digits = decimal(p);
            String::from_str("\n👥 Population: ").concat(digits.as_str())
        },
        None => String::new(),
    };
    let number_text = decimal(number);
    number_text.concat(". 📍 ").concat(name.as_str()).concat(admin.as_str()).concat(", ").concat(
        country.as_str(),
    ).concat("\n📍 Coordinates: ").concat(latitude.as_str()).concat("°, ").concat(
        longitude.as_str(),
    ).concat("°\n🕐 Timezone: ").concat(timezone.as_str()).concat(population.as_str()).concat(
        "\n\n",
    )
}

/// Renders the matches of a place-name search.
pub fn format_locations(data: &Vec<LocationMatch>) -> (r: String)
    ensures
        r@ == locations_report(data@),
        data@.len() == 0 ==> r@ == no_locations_text(),
{
    if data.len() == 0 {
        return String::from_str("No locations found matching your search query.");
    }
    let mut out = String::from_str("🌍 Location Search Results:\n\n");
    let ghost header = out@;
    let mut i: usize = 0;
    while i < data.len()
        invariant
            0 <= i <= data@.len(),
            out@ == header + location_entries(data@, i as nat),
        decreases data@.len() - i,
    {
        let entry = location_entry_text(&data[i], (i + 1) as u64);
        out = out.concat(entry.as_str());
        i = i + 1;
        assert(out@ =~= header + location_entries(data@, i as nat));
    }
    out
}

/// The indices that the aggregates are taken over are complete days of the
/// series, in range.
pub proof fn lemma_complete_indices_are_complete(s: Seq<HistoricalDay>, n: nat)
    requires
        n <= s.len(),
    ensures
        forall|k: int|
            0 <= k < complete_indices(s, n).len() ==> {
                let j = #[trigger] complete_indices(s, n)[k];
                0 <= j < n && is_complete(s[j])
            },
    decreases n,
{
    if n > 0 {
        lemma_complete_indices_are_complete(s, (n - 1) as nat);
        let prev = complete_indices(s, (n - 1) as nat);
        if is_complete(s[n - 1]) {
            let cur = prev.push(n - 1);
            assert(complete_indices(s, n) == cur);
            assert forall|k: int| 0 <= k < cur.len() implies {
                let j = #[trigger] cur[k];
                0 <= j < n && is_complete(s[j])
            } by {
                if k < prev.len() {
                    assert(cur[k] == prev[k]);
                }
            }
        } else {
            assert(complete_indices(s, n) == prev);
        }
    }
}

/// The preview of the first `m` days starts with the preview of the first `n`.
pub proof fn lemma_preview_prefix(s: Seq<HistoricalDay>, units: DailyUnits, n: nat, m: nat)
    requires
        n <= m <= s.len(),
    ensures
        preview_lines(s, units, n).len() <= preview_lines(s, units, m).len(),
        preview_lines(s, units, n) == preview_lines(s, units, m).subrange(
            0,
            preview_lines(s, units, n).len() as int,
        ),
    decreases m - n,
{
    if n < m {
        lemma_preview_prefix(s, units, n, (m - 1) as nat);
        let a = preview_lines(s, units, (m - 1) as nat);
        let b = preview_line(s[m - 1], units);
        let pn = preview_lines(s, units, n);
        assert(preview_lines(s, units, m) == a + b);
        assert((a + b).subrange(0, pn.len() as int) =~= a.subrange(0, pn.len() as int));
    }
}

/// A day that lacks any of high, low, mean or precipitation is left out of
/// the aggregates; when it is among the first five days, the preview still
/// lists it, with its missing readings defaulted.
pub proof fn lemma_incomplete_day_previewed_not_aggregated(
    s: Seq<HistoricalDay>,
    units: DailyUnits,
    i: int,
)
    requires
        0 <= i < s.len(),
        !is_complete(s[i]),
    ensures
        !complete_indices(s, s.len()).contains(i),
        i < PREVIEW_DAYS ==> {
            let all = preview_lines(s, units, min_nat(PREVIEW_DAYS as nat, s.len()));
            let before = preview_lines(s, units, i as nat);
            all.subrange(before.len() as int, (before.len() + preview_line(s[i], units).len()) as int)
                == preview_line(s[i], units)
        },
{
    lemma_complete_indices_are_complete(s, s.len());
    if complete_indices(s, s.len()).contains(i) {
        let k = choose|k: int|
            0 <= k < complete_indices(s, s.len()).len() && complete_indices(s, s.len())[k] == i;
        assert(is_complete(s[complete_indices(s, s.len())[k]]));
    }
    if i < PREVIEW_DAYS {
        let n = min_nat(PREVIEW_DAYS as nat, s.len());
        lemma_preview_prefix(s, units, (i + 1) as nat, n);
        let before = preview_lines(s, units, i as nat);
        let line = preview_line(s[i], units);
        let upto = preview_lines(s, units, (i + 1) as nat);
        assert(upto == before + line);
        let all = preview_lines(s, units, n);
        assert(all.subrange(before.len() as int, (before.len() + line.len()) as int) =~= upto.subrange(
            before.len() as int,
            upto.len() as int,
        ));
        assert(upto.subrange(before.len() as int, upto.len() as int) =~= line);
    }
}

} // verus!
