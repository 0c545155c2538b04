use open_meteo::report::{
    complete_days, format_current_weather, format_historical_weather, format_locations,
    format_weather_forecast, CurrentSnapshot, DailyUnits, ForecastDay, HistoricalDay,
    HistoricalSummary, LocationMatch,
};

fn s(v: &str) -> Option<String> {
    Some(v.to_string())
}

fn empty_snapshot() -> CurrentSnapshot {
    CurrentSnapshot {
        time: None,
        temperature: None,
        feels_like: None,
        humidity: None,
        precipitation: None,
        wind_speed: None,
        wind_direction: None,
        cloud_cover: None,
        pressure: None,
        weather_code: None,
        is_day: None,
        temperature_unit: None,
        humidity_unit: None,
        precipitation_unit: None,
        wind_speed_unit: None,
        pressure_unit: None,
    }
}

fn full_snapshot() -> CurrentSnapshot {
    CurrentSnapshot {
        time: s("2024-05-01T12:00"),
        temperature: s("15.2"),
        feels_like: s("14.0"),
        humidity: s("60"),
        precipitation: s("0.0"),
        wind_speed: s("10.5"),
        wind_direction: s("270"),
        cloud_cover: s("25"),
        pressure: s("1013.2"),
        weather_code: Some(1),
        is_day: Some(1),
        temperature_unit: s("°C"),
        humidity_unit: s("%"),
        precipitation_unit: s("mm"),
        wind_speed_unit: s("km/h"),
        pressure_unit: s("hPa"),
    }
}

fn no_units() -> DailyUnits {
    DailyUnits { temperature: None, precipitation: None, wind_speed: None }
}

#[test]
fn paris_current_weather_scenario() {
    let text = format_current_weather(&full_snapshot(), "48.85", "2.35");
    assert!(text.contains("Mainly clear"));
    assert!(text.contains("15.2"));
    assert!(text.contains("60"));
    assert_eq!(
        text,
        "🌍 Current Weather\nLocation: 48.85°, 2.35°\nTime: 2024-05-01T12:00\n\n🌡️ Temperature: 15.2°C\n🤔 Feels like: 14.0°C\n💧 Humidity: 60%\n☔ Precipitation: 0.0mm\n💨 Wind: 10.5km/h from 270°\n🌫️ Cloud cover: 25%\n📊 Pressure: 1013.2hPa\n☀️ Conditions: Mainly clear"
    );
}

#[test]
fn current_weather_is_stable() {
    let a = format_current_weather(&full_snapshot(), "48.85", "2.35");
    let b = format_current_weather(&full_snapshot(), "48.85", "2.35");
    assert_eq!(a, b);
}

#[test]
fn current_weather_defaults_everything() {
    let text = format_current_weather(&empty_snapshot(), "0.00", "0.00");
    assert_eq!(
        text,
        "🌍 Current Weather\nLocation: 0.00°, 0.00°\nTime: Unknown\n\n🌡️ Temperature: 0.0°C\n🤔 Feels like: 0.0°C\n💧 Humidity: 0%\n☔ Precipitation: 0.0mm\n💨 Wind: 0.0km/h from 0°\n🌫️ Cloud cover: 0%\n📊 Pressure: 0.0hPa\n☀️ Conditions: Clear sky"
    );
}

fn forecast_day(date: &str, code: u64) -> ForecastDay {
    ForecastDay {
        date: s(date),
        max_temperature: s("20.1"),
        min_temperature: s("10.4"),
        weather_code: Some(code),
        precipitation: s("1.5"),
        wind_speed: s("12.0"),
    }
}

#[test]
fn forecast_lists_days_within_window() {
    let data = vec![forecast_day("2024-05-01", 3), forecast_day("2024-05-02", 61), forecast_day("2024-05-03", 0)];
    let units = DailyUnits { temperature: s("°F"), precipitation: s("inch"), wind_speed: s("mph") };
    let text = format_weather_forecast(&data, &units, "1.00", "2.00", 2);
    assert_eq!(
        text,
        "🌍 2-Day Weather Forecast\nLocation: 1.00°, 2.00°\n\n📅 2024-05-01\n🌡️ 20.1°F / 10.4°F\n☀️ Overcast\n☔ 1.5inch\n💨 12.0mph\n\n📅 2024-05-02\n🌡️ 20.1°F / 10.4°F\n☀️ Slight rain\n☔ 1.5inch\n💨 12.0mph\n\n"
    );
}

#[test]
fn forecast_short_series_ends_early() {
    let data = vec![ForecastDay {
        date: None,
        max_temperature: None,
        min_temperature: None,
        weather_code: None,
        precipitation: None,
        wind_speed: None,
    }];
    let text = format_weather_forecast(&data, &no_units(), "1.00", "2.00", 7);
    assert_eq!(
        text,
        "🌍 7-Day Weather Forecast\nLocation: 1.00°, 2.00°\n\n📅 Unknown\n🌡️ 0.0°C / 0.0°C\n☀️ Clear sky\n☔ 0.0mm\n💨 0.0km/h\n\n"
    );
    let empty = format_weather_forecast(&vec![], &no_units(), "1.00", "2.00", 16);
    assert_eq!(empty, "🌍 16-Day Weather Forecast\nLocation: 1.00°, 2.00°\n\n");
}

fn hist_day(date: &str, mean: Option<String>) -> HistoricalDay {
    HistoricalDay {
        date: s(date),
        max_temperature: s("20.0"),
        min_temperature: s("10.0"),
        mean_temperature: mean,
        precipitation: s("1.0"),
    }
}

fn summary() -> HistoricalSummary {
    HistoricalSummary {
        average_high: "20.0".to_string(),
        average_low: "10.0".to_string(),
        average_mean: "15.0".to_string(),
        total_precipitation: "5.0".to_string(),
        average_precipitation: "1.0".to_string(),
    }
}

#[test]
fn historical_skips_incomplete_day_in_aggregate() {
    let mut data = Vec::new();
    for i in 0..6 {
        let mean = if i == 2 { None } else { s("15.0") };
        data.push(hist_day(&format!("2024-01-0{}", i + 1), mean));
    }
    assert_eq!(complete_days(&data), vec![0, 1, 3, 4, 5]);
    data[2].max_temperature = None;
    let text = format_historical_weather(&data, &no_units(), &summary(), "1.00", "2.00", "2024-01-01", "2024-01-06");
    assert_eq!(
        text,
        "🌍 Historical Weather Data\nLocation: 1.00°, 2.00°\nPeriod: 2024-01-01 to 2024-01-06\n\n📊 Summary Statistics (5 days):\n🌡️ Average High: 20.0°C\n🌡️ Average Low: 10.0°C\n🌡️ Average Mean: 15.0°C\n☔ Total Precipitation: 5.0mm\n☔ Average Daily Precipitation: 1.0mm\n\n📅 Daily Data (first 5 days):\n2024-01-01: 20.0°C / 10.0°C, 1.0mm\n2024-01-02: 20.0°C / 10.0°C, 1.0mm\n2024-01-03: 0.0°C / 10.0°C, 1.0mm\n2024-01-04: 20.0°C / 10.0°C, 1.0mm\n2024-01-05: 20.0°C / 10.0°C, 1.0mm\n"
    );
}

#[test]
fn historical_without_complete_days_has_no_summary() {
    let data = vec![hist_day("2024-01-01", None)];
    assert!(complete_days(&data).is_empty());
    let text = format_historical_weather(&data, &no_units(), &summary(), "1.00", "2.00", "a", "b");
    assert_eq!(
        text,
        "🌍 Historical Weather Data\nLocation: 1.00°, 2.00°\nPeriod: a to b\n\n📅 Daily Data (first 5 days):\n2024-01-01: 20.0°C / 10.0°C, 1.0mm\n"
    );
}

#[test]
fn empty_locations_give_fixed_message() {
    assert_eq!(format_locations(&vec![]), "No locations found matching your search query.");
}

#[test]
fn locations_are_numbered_with_optional_parts() {
    let data = vec![
        LocationMatch {
            name: s("Paris"),
            country: s("France"),
            admin1: s("Île-de-France"),
            latitude: s("48.8534"),
            longitude: s("2.3488"),
            timezone: s("Europe/Paris"),
            population: Some(2138551),
        },
        LocationMatch {
            name: None,
            country: None,
            admin1: None,
            latitude: None,
            longitude: None,
            timezone: None,
            population: None,
        },
    ];
    assert_eq!(
        format_locations(&data),
        "🌍 Location Search Results:\n\n1. 📍 Paris, Île-de-France, France\n📍 Coordinates: 48.8534°, 2.3488°\n🕐 Timezone: Europe/Paris\n👥 Population: 2138551\n\n2. 📍 Unknown, Unknown\n📍 Coordinates: 0.0000°, 0.0000°\n🕐 Timezone: Unknown\n\n"
    );
}
