use open_meteo::conditions::get_weather_description;
use open_meteo::coords::{validate_coordinates, Degrees};
use open_meteo::dates::validate_date;
use open_meteo::params::{forecast_days, location_limit};

fn deg(v: f64) -> Degrees {
    Degrees { bits: v.to_bits(), text: v.to_string() }
}

#[test]
fn describes_listed_codes() {
    assert_eq!(get_weather_description(0, true), "Clear sky");
    assert_eq!(get_weather_description(1, false), "Mainly clear");
    assert_eq!(get_weather_description(48, true), "Depositing rime fog");
    assert_eq!(get_weather_description(57, true), "Dense freezing drizzle");
    assert_eq!(get_weather_description(82, true), "Violent rain showers");
    assert_eq!(get_weather_description(95, true), "Thunderstorm");
    assert_eq!(get_weather_description(99, false), "Thunderstorm with heavy hail");
}

#[test]
fn unknown_codes_read_unknown_conditions() {
    assert_eq!(get_weather_description(999, true), "Unknown conditions");
    assert_eq!(get_weather_description(4, false), "Unknown conditions");
    assert_eq!(get_weather_description(u64::MAX, true), "Unknown conditions");
}

#[test]
fn forecast_days_default_and_clamp() {
    assert_eq!(forecast_days(None), 7);
    assert_eq!(forecast_days(Some(30)), 16);
    assert_eq!(forecast_days(Some(0)), 1);
    assert_eq!(forecast_days(Some(10)), 10);
    assert_eq!(forecast_days(Some(u32::MAX)), 16);
}

#[test]
fn location_limit_default_and_clamp() {
    assert_eq!(location_limit(None), 10);
    assert_eq!(location_limit(Some(500)), 100);
    assert_eq!(location_limit(Some(0)), 1);
    assert_eq!(location_limit(Some(25)), 25);
}

#[test]
fn bad_dates_are_rejected_with_their_text() {
    for s in ["2024-13-40", "not-a-date", "", "2024-02-30"] {
        let err = validate_date(s).unwrap_err();
        assert_eq!(err, format!("Invalid date format: '{}'. Expected YYYY-MM-DD.", s));
        assert!(err.contains(s));
    }
}

#[test]
fn good_dates_are_read() {
    let d = validate_date("2024-02-29").unwrap();
    assert_eq!((d.year, d.month, d.day), (2024, 2, 29));
    let d = validate_date("1999-12-31").unwrap();
    assert_eq!((d.year, d.month, d.day), (1999, 12, 31));
}

#[test]
fn coordinates_in_range_pass() {
    for (lat, lon) in [(0.0, 0.0), (90.0, 180.0), (-90.0, -180.0), (48.85, 2.35), (-0.0, 1e-300)] {
        assert_eq!(validate_coordinates(&deg(lat), &deg(lon)), Ok(()));
    }
    assert_eq!(validate_coordinates(&deg(5e-324), &deg(-179.99999999)), Ok(()));
}

#[test]
fn latitude_out_of_range_fails() {
    let err = validate_coordinates(&deg(90.5), &deg(0.0)).unwrap_err();
    assert_eq!(err, "Invalid latitude: 90.5. Must be between -90 and 90.");
    let err = validate_coordinates(&deg(-91.0), &deg(500.0)).unwrap_err();
    assert_eq!(err, "Invalid latitude: -91. Must be between -90 and 90.");
    let just_above = f64::from_bits(90.0f64.to_bits() + 1);
    assert!(validate_coordinates(&deg(just_above), &deg(0.0)).is_err());
    assert!(validate_coordinates(&deg(f64::INFINITY), &deg(0.0)).is_err());
    assert!(validate_coordinates(&deg(1e300), &deg(0.0)).is_err());
}

#[test]
fn longitude_out_of_range_fails() {
    let err = validate_coordinates(&deg(10.0), &deg(180.25)).unwrap_err();
    assert_eq!(err, "Invalid longitude: 180.25. Must be between -180 and 180.");
    let err = validate_coordinates(&deg(10.0), &deg(-200.0)).unwrap_err();
    assert_eq!(err, "Invalid longitude: -200. Must be between -180 and 180.");
    assert!(validate_coordinates(&deg(0.0), &deg(f64::NEG_INFINITY)).is_err());
}

#[test]
fn nan_coordinates_are_not_out_of_range() {
    assert_eq!(validate_coordinates(&deg(f64::NAN), &deg(f64::NAN)), Ok(()));
}
