use lookoutside::text::{char_is_white_space, eq_ignore_ascii_case, join_with, str_is_blank};
use lookoutside::{
    check_ip_reply, choose_location_source, compass_point, first, first_str, ip_location_name,
    join_location_parts, paint, search_location_name, short_datetime, short_time,
    weather_condition, weather_description, LocationSource, Units,
};

#[test]
fn maps_wmo_weather_codes() {
    assert_eq!(weather_condition(0, true), ("☀️", "Clear sky"));
    assert_eq!(weather_condition(0, false), ("🌙", "Clear sky"));
    assert_eq!(weather_description(82), "Heavy rain showers");
    assert_eq!(weather_description(999), "Unknown conditions");
}

#[test]
fn joins_only_distinct_location_parts() {
    assert_eq!(
        join_location_parts([Some("Paris"), Some("Île-de-France"), Some("France")]),
        "Paris, Île-de-France, France"
    );
    assert_eq!(
        join_location_parts([Some("Singapore"), Some("Singapore"), None]),
        "Singapore"
    );
}

#[test]
fn formats_api_timestamps() {
    assert_eq!(short_time("2025-06-01T05:12"), "05:12");
    assert_eq!(short_datetime("2025-06-01T05:12"), "2025-06-01 05:12");
}

#[test]
fn unit_names_for_the_forecast_service() {
    assert_eq!(Units::Metric.temperature_api_value(), "celsius");
    assert_eq!(Units::Imperial.temperature_api_value(), "fahrenheit");
    assert_eq!(Units::Metric.wind_api_value(), "kmh");
    assert_eq!(Units::Imperial.wind_api_value(), "mph");
    assert_eq!(Units::Metric.precipitation_api_value(), "mm");
    assert_eq!(Units::Imperial.precipitation_api_value(), "inch");
    assert_eq!(Units::default(), Units::Metric);
}

#[test]
fn every_weather_code_group_has_its_symbol() {
    assert_eq!(weather_condition(1, true), ("🌤️", "Mainly clear"));
    assert_eq!(weather_condition(2, false), ("☁️", "Partly cloudy"));
    assert_eq!(weather_condition(3, true), ("☁️", "Overcast"));
    assert_eq!(weather_condition(48, true), ("🌫️", "Rime fog"));
    assert_eq!(weather_condition(57, false), ("🌦️", "Heavy freezing drizzle"));
    assert_eq!(weather_condition(81, true), ("🌧️", "Rain showers"));
    assert_eq!(weather_condition(86, true), ("🌨️", "Heavy snow showers"));
    assert_eq!(weather_condition(99, false), ("⛈️", "Severe thunderstorm with hail"));
    assert_eq!(weather_condition(4, true), ("🌡️", "Unknown conditions"));
    assert_eq!(weather_condition(4, false), ("🌡️", "Unknown conditions"));
}

#[test]
fn unknown_codes_read_as_unknown() {
    for code in [4u16, 44, 50, 100, 65535] {
        assert_eq!(weather_description(code), "Unknown conditions");
        assert_eq!(weather_condition(code, true).0, weather_condition(code, false).0);
    }
}

#[test]
fn condition_describes_like_description() {
    for code in 0u16..120 {
        assert_eq!(weather_condition(code, true).1, weather_description(code));
        if code > 2 {
            assert_eq!(weather_condition(code, true).0, weather_condition(code, false).0);
        }
    }
}

#[test]
fn compass_points_wrap_around() {
    assert_eq!(compass_point(0), "N");
    assert_eq!(compass_point(2), "NE");
    assert_eq!(compass_point(8), "S");
    assert_eq!(compass_point(12), "W");
    assert_eq!(compass_point(15), "NNW");
    assert_eq!(compass_point(16), "N");
    assert_eq!(compass_point(16 + 5), compass_point(5));
}

#[test]
fn location_parts_are_compared_without_ascii_case() {
    assert_eq!(
        join_location_parts([Some("London"), Some("england"), Some("ENGLAND")]),
        "London, england"
    );
    assert_eq!(join_location_parts([Some("Zürich"), Some("ZÜRICH")]), "Zürich, ZÜRICH");
}

#[test]
fn blank_or_missing_parts_are_skipped() {
    assert_eq!(join_location_parts([None, Some("  "), Some("Oslo")]), "Oslo");
    assert_eq!(join_location_parts([Some(" \t"), None, Some("\u{3000}")]), "Unknown location");
    assert_eq!(join_location_parts::<0>([]), "Unknown location");
    assert_eq!(join_location_parts([Some(" Oslo "), Some("Norway")]), " Oslo , Norway");
}

#[test]
fn location_name_is_never_empty() {
    for parts in [[None, None], [Some(""), Some(" ")], [Some("a"), None]] {
        assert!(!join_location_parts(parts).is_empty());
    }
}

#[test]
fn searched_place_names() {
    assert_eq!(
        search_location_name("Testville", Some("Test Region"), Some("Testland"), Some("TL")),
        "Testville, Test Region, Testland"
    );
    assert_eq!(search_location_name("Monaco", None, Some("monaco"), Some("MC")), "Monaco");
    assert_eq!(search_location_name("Monaco", None, None, Some("MC")), "Monaco, MC");
    assert_eq!(search_location_name("Vaduz", Some("Vaduz"), None, None), "Vaduz");
}

#[test]
fn address_located_place_names() {
    assert_eq!(
        ip_location_name(Some("London"), Some("England"), Some("United Kingdom"), Some("🇬🇧")),
        "London, England, United Kingdom 🇬🇧"
    );
    assert_eq!(ip_location_name(Some("Oslo"), None, Some("Norway"), Some("")), "Oslo, Norway");
    assert_eq!(ip_location_name(None, None, None, None), "Unknown location");
}

#[test]
fn address_replies_are_checked() {
    assert_eq!(check_ip_reply(true, None, true, true), Ok(()));
    assert_eq!(
        check_ip_reply(false, Some("reserved range"), true, true),
        Err("could not detect your location: reserved range. Try passing a place name or --lat/--lon".to_string())
    );
    assert_eq!(
        check_ip_reply(false, None, false, false),
        Err("could not detect your location: unknown location error. Try passing a place name or --lat/--lon".to_string())
    );
    assert_eq!(
        check_ip_reply(true, None, false, false),
        Err("location response had no latitude".to_string())
    );
    assert_eq!(
        check_ip_reply(true, None, true, false),
        Err("location response had no longitude".to_string())
    );
}

#[test]
fn location_sources() {
    assert_eq!(choose_location_source(true, true, true), LocationSource::Search);
    assert_eq!(choose_location_source(false, true, true), LocationSource::Coordinates);
    assert_eq!(choose_location_source(false, true, false), LocationSource::Ip);
    assert_eq!(choose_location_source(false, false, false), LocationSource::Ip);
    assert_eq!(LocationSource::Search.label(), "search");
    assert_eq!(LocationSource::Coordinates.label(), "coordinates");
    assert_eq!(LocationSource::Ip.label(), "ip");
}

#[test]
fn timestamps_without_a_time() {
    assert_eq!(short_time("05:12"), "05:12");
    assert_eq!(short_time("aTbTc"), "c");
    assert_eq!(short_time("T"), "");
    assert_eq!(short_datetime("TxT"), " x ");
    assert_eq!(short_datetime(&short_datetime("2025T01")), "2025 01");
    assert_eq!(short_datetime("ñTé"), "ñ é");
}

#[test]
fn painting_wraps_only_when_enabled() {
    assert_eq!(paint("LOOK OUTSIDE", "1;36", true), "\x1b[1;36mLOOK OUTSIDE\x1b[0m");
    assert_eq!(paint("LOOK OUTSIDE", "1;36", false), "LOOK OUTSIDE");
}

#[test]
fn first_values_of_daily_series() {
    assert_eq!(first(&[22.0f64, 23.0], "daily maximum temperature"), Ok(22.0));
    assert_eq!(
        first::<f64>(&[], "daily maximum temperature"),
        Err("weather response had no daily maximum temperature".to_string())
    );
    let sunrise = vec!["2026-07-18T05:00".to_string()];
    assert_eq!(first_str(&sunrise, "sunrise"), Ok("2026-07-18T05:00"));
    assert_eq!(first_str(&[], "sunset"), Err("weather response had no sunset".to_string()));
}

#[test]
fn text_helpers() {
    assert!(char_is_white_space(' '));
    assert!(char_is_white_space('\u{85}'));
    assert!(char_is_white_space('\u{2009}'));
    assert!(!char_is_white_space('x'));
    assert!(!char_is_white_space('\u{200B}'));
    assert!(str_is_blank(""));
    assert!(!str_is_blank(" a "));
    assert!(eq_ignore_ascii_case("Paris", "pARIS"));
    assert!(!eq_ignore_ascii_case("Paris", "Pari"));
    assert!(!eq_ignore_ascii_case("É", "é"));
    assert_eq!(join_with(&vec!["a", "b", "c"], "-"), "a-b-c");
    assert_eq!(join_with(&vec![], "-"), "");
    for c in ['\t', '\n', ' ', '\u{a0}', '\u{1680}', '\u{2028}', '\u{3000}', 'a', '\u{180e}'] {
        assert_eq!(char_is_white_space(c), c.is_whitespace());
    }
}
