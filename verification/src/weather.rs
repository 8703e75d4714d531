//! Words and symbols for the WMO weather codes and for wind directions.
use vstd::prelude::*;

verus! {

/// The description of a WMO weather interpretation code.
pub open spec fn description_of(code: u16) -> Seq<char> {
    match code {
        0 => "Clear sky"@,
        1 => "Mainly clear"@,
        2 => "Partly cloudy"@,
        3 => "Overcast"@,
        45 => "Fog"@,
        48 => "Rime fog"@,
        51 => "Light drizzle"@,
        53 => "Drizzle"@,
        55 => "Heavy drizzle"@,
        56 => "Light freezing drizzle"@,
        57 => "Heavy freezing drizzle"@,
        61 => "Light rain"@,
        63 => "Rain"@,
        65 => "Heavy rain"@,
        66 => "Light freezing rain"@,
        67 => "Heavy freezing rain"@,
        71 => "Light snow"@,
        73 => "Snow"@,
        75 => "Heavy snow"@,
        77 => "Snow grains"@,
        80 => "Light rain showers"@,
        81 => "Rain showers"@,
        82 => "Heavy rain showers"@,
        85 => "Light snow showers"@,
        86 => "Heavy snow showers"@,
        95 => "Thunderstorm"@,
        96 => "Thunderstorm with hail"@,
        99 => "Severe thunderstorm with hail"@,
        _ => "Unknown conditions"@,
    }
}

/// The codes that have a description of their own.
pub open spec fn is_known_code(code: u16) -> bool {
    ||| code <= 3
    ||| code == 45 || code == 48
    ||| code == 51 || code == 53 || code == 55 || code == 56 || code == 57
    ||| code == 61 || code == 63 || code == 65 || code == 66 || code == 67
    ||| code == 71 || code == 73 || code == 75 || code == 77
    ||| code == 80 || code == 81 || code == 82 || code == 85 || code == 86
    ||| code == 95 || code == 96 || code == 99
}

/// The symbol shown beside a WMO weather code, by day or by night.
pub open spec fn icon_of(code: u16, is_day: bool) -> Seq<char> {
    if code == 0 {
        if is_day {
            "☀️"@
        } else {
            "🌙"@
        }
    } else if code == 1 || code == 2 {
        if is_day {
            "🌤️"@
        } else {
            "☁️"@
        }
    } else if code == 3 {
        "☁️"@
    } else if code == 45 || code == 48 {
        "🌫️"@
    } else if code == 51 || code == 53 || code == 55 || code == 56 || code == 57 {
        "🌦️"@
    } else if code == 61 || code == 63 || code == 65 || code == 66 || code == 67 || code == 80
        || code == 81 || code == 82 {
        "🌧️"@
    } else if code == 71 || code == 73 || code == 75 || code == 77 || code == 85 || code == 86 {
        "🌨️"@
    } else if code == 95 || code == 96 || code == 99 {
        "⛈️"@
    } else {
        "🌡️"@
    }
}

/// Describes a WMO weather interpretation code in words.
pub fn weather_description(code: u16) -> (r: &'static str)
    ensures
        r@ == description_of(code),
{
    match code {
        0 => "Clear sky",
        1 => "Mainly clear",
        2 => "Partly cloudy",
        3 => "Overcast",
        45 => "Fog",
        48 => "Rime fog",
        51 => "Light drizzle",
        53 => "Drizzle",
        55 => "Heavy drizzle",
        56 => "Light freezing drizzle",
        57 => "Heavy freezing drizzle",
        61 => "Light rain",
        63 => "Rain",
        65 => "Heavy rain",
        66 => "Light freezing rain",
        67 => "Heavy freezing rain",
        71 => "Light snow",
        73 => "Snow",
        75 => "Heavy snow",
        77 => "Snow grains",
        80 => "Light rain showers",
        81 => "Rain showers",
        82 => "Heavy rain showers",
        85 => "Light snow showers",
        86 => "Heavy snow showers",
        95 => "Thunderstorm",
        96 => "Thunderstorm with hail",
        99 => "Severe thunderstorm with hail",
        _ => "Unknown conditions",
    }
}

/// The symbol and the description of a WMO weather code; the symbol of a clear
/// or mainly clear sky depends on whether it is day.
pub fn weather_condition(code: u16, is_day: bool) -> (r: (&'static str, &'static str))
    ensures
        r.0@ == icon_of(code, is_day),
        r.1@ == description_of(code),
{
    let description = weather_description(code);
    let icon = match code {
        0 => if is_day {
            "☀️"
        } else {
            "🌙"
        },
        1 | 2 => if is_day {
            "🌤️"
        } else {
            "☁️"
        },
        3 => "☁️",
        45 | 48 => "🌫️",
        51 | 53 | 55 | 56 | 57 => "🌦️",
        61 | 63 | 65 | 66 | 67 | 80 | 81 | 82 => "🌧️",
        71 | 73 | 75 | 77 | 85 | 86 => "🌨️",
        95 | 96 | 99 => "⛈️",
        _ => "🌡️",
    };
    (icon, description)
}

/// The name of one of the sixteen compass points, counted clockwise from north.
pub open spec fn compass_name(point: usize) -> Seq<char> {
    match point {
        0 => "N"@,
        1 => "NNE"@,
        2 => "NE"@,
        3 => "ENE"@,
        4 => "E"@,
        5 => "ESE"@,
        6 => "SE"@,
        7 => "SSE"@,
        8 => "S"@,
        9 => "SSW"@,
        10 => "SW"@,
        11 => "WSW"@,
        12 => "W"@,
        13 => "WNW"@,
        14 => "NW"@,
        _ => "NNW"@,
    }
}

/// The compass point of a sector of 22.5 degrees, counted clockwise from north;
/// sector numbers wrap around after sixteen.
pub fn compass_point(sector: usize) -> (r: &'static str)
    ensures
        r@ == compass_name(sector % 16),
{
    match sector % 16 {
        0 => "N",
        1 => "NNE",
        2 => "NE",
        3 => "ENE",
        4 => "E",
        5 => "ESE",
        6 => "SE",
        7 => "SSE",
        8 => "S",
        9 => "SSW",
        10 => "SW",
        11 => "WSW",
        12 => "W",
        13 => "WNW",
        14 => "NW",
        _ => "NNW",
    }
}

/// A code without a description of its own is described as unknown and shown
/// with a thermometer, by day and by night.
pub proof fn lemma_unknown_codes(code: u16, is_day: bool)
    requires
        !is_known_code(code),
    ensures
        description_of(code) == "Unknown conditions"@,
        icon_of(code, is_day) == "🌡️"@,
{
}

/// Every code has a description and a symbol; only a clear or mainly clear sky
/// (codes 0, 1 and 2) is shown differently by day and by night.
pub proof fn lemma_icon_depends_on_daylight_only_for_clear_skies(code: u16)
    ensures
        code > 2 ==> icon_of(code, true) == icon_of(code, false),
{
}

/// The WMO table of descriptions, code by code.
pub proof fn lemma_description_table()
    ensures
        description_of(0) == "Clear sky"@ && description_of(1) == "Mainly clear"@
            && description_of(2) == "Partly cloudy"@ && description_of(3) == "Overcast"@,
        description_of(45) == "Fog"@ && description_of(48) == "Rime fog"@,
        description_of(51) == "Light drizzle"@ && description_of(53) == "Drizzle"@
            && description_of(55) == "Heavy drizzle"@,
        description_of(56) == "Light freezing drizzle"@ && description_of(57)
            == "Heavy freezing drizzle"@,
        description_of(61) == "Light rain"@ && description_of(63) == "Rain"@
            && description_of(65) == "Heavy rain"@,
        description_of(66) == "Light freezing rain"@ && description_of(67)
            == "Heavy freezing rain"@,
        description_of(71) == "Light snow"@ && description_of(73) == "Snow"@
            && description_of(75) == "Heavy snow"@ && description_of(77) == "Snow grains"@,
        description_of(80) == "Light rain showers"@ && description_of(81) == "Rain showers"@
            && description_of(82) == "Heavy rain showers"@,
        description_of(85) == "Light snow showers"@ && description_of(86)
            == "Heavy snow showers"@,
        description_of(95) == "Thunderstorm"@ && description_of(96)
            == "Thunderstorm with hail"@ && description_of(99)
            == "Severe thunderstorm with hail"@,
{
}

/// The light and the heavy grade of a kind of precipitation: the light one reads
/// "Light ...", and the heavy one reads the same with "Light" replaced by "Heavy".
pub proof fn lemma_light_and_heavy_grades(light: u16, heavy: u16)
    requires
        (light == 51 && heavy == 55) || (light == 56 && heavy == 57) || (light == 61 && heavy
            == 65) || (light == 66 && heavy == 67) || (light == 71 && heavy == 75) || (light
            == 80 && heavy == 82) || (light == 85 && heavy == 86),
    ensures
        description_of(light).len() > 5,
        description_of(light).take(5) == "Light"@,
        description_of(heavy) == "Heavy"@ + description_of(light).skip(5),
{
    reveal_strlit("Light");
    reveal_strlit("Heavy");
    reveal_strlit("Light drizzle");
    reveal_strlit("Heavy drizzle");
    reveal_strlit("Light freezing drizzle");
    reveal_strlit("Heavy freezing drizzle");
    reveal_strlit("Light rain");
    reveal_strlit("Heavy rain");
    reveal_strlit("Light freezing rain");
    reveal_strlit("Heavy freezing rain");
    reveal_strlit("Light snow");
    reveal_strlit("Heavy snow");
    reveal_strlit("Light rain showers");
    reveal_strlit("Heavy rain showers");
    reveal_strlit("Light snow showers");
    reveal_strlit("Heavy snow showers");
    assert(description_of(light).take(5) =~= "Light"@);
    assert(description_of(heavy) =~= "Heavy"@ + description_of(light).skip(5));
}

/// The symbols by kind of weather: sun or moon for a clear sky; sun behind a
/// cloud by day and a cloud by night for a mainly clear or partly cloudy sky; a
/// cloud for an overcast one; fog, drizzle, rain (rain showers included), snow
/// (snow grains and snow showers included) and thunderstorm each their own, by
/// day and by night.
pub proof fn lemma_icons_by_kind(code: u16, is_day: bool)
    ensures
        code == 0 ==> icon_of(code, is_day) == (if is_day {
            "☀️"@
        } else {
            "🌙"@
        }),
        (code == 1 || code == 2) ==> icon_of(code, is_day) == (if is_day {
            "🌤️"@
        } else {
            "☁️"@
        }),
        code == 3 ==> icon_of(code, is_day) == "☁️"@,
        (code == 45 || code == 48) ==> icon_of(code, is_day) == "🌫️"@,
        (code == 51 || code == 53 || code == 55 || code == 56 || code == 57) ==> icon_of(
            code,
            is_day,
        ) == "🌦️"@,
        (code == 61 || code == 63 || code == 65 || code == 66 || code == 67 || code == 80 || code
            == 81 || code == 82) ==> icon_of(code, is_day) == "🌧️"@,
        (code == 71 || code == 73 || code == 75 || code == 77 || code == 85 || code == 86)
            ==> icon_of(code, is_day) == "🌨️"@,
        (code == 95 || code == 96 || code == 99) ==> icon_of(code, is_day) == "⛈️"@,
{
}

/// A partly cloudy sky by day is not shown as an overcast one, nor snow as rain,
/// nor drizzle as rain, nor a clear night as a clear day.
pub proof fn lemma_icons_tell_kinds_apart(is_day: bool)
    ensures
        icon_of(2, true) != icon_of(3, true),
        icon_of(73, is_day) != icon_of(63, is_day),
        icon_of(85, is_day) != icon_of(80, is_day),
        icon_of(53, is_day) != icon_of(63, is_day),
        icon_of(0, true) != icon_of(0, false),
{
    reveal_strlit("🌤️");
    reveal_strlit("☁️");
    reveal_strlit("🌧️");
    reveal_strlit("🌨️");
    reveal_strlit("🌦️");
    reveal_strlit("☀️");
    reveal_strlit("🌙");
    assert("🌤️"@[0] != "☁️"@[0]);
    assert("🌨️"@[0] != "🌧️"@[0]);
    assert("🌦️"@[0] != "🌧️"@[0]);
    assert("☀️"@[0] != "🌙"@[0]);
}

/// The sixteen compass points, clockwise from north.
pub proof fn lemma_compass_order(point: usize)
    requires
        point < 16,
    ensures
        compass_name(point) == seq![
            "N"@,
            "NNE"@,
            "NE"@,
            "ENE"@,
            "E"@,
            "ESE"@,
            "SE"@,
            "SSE"@,
            "S"@,
            "SSW"@,
            "SW"@,
            "WSW"@,
            "W"@,
            "WNW"@,
            "NW"@,
            "NNW"@,
        ][point as int],
{
}

/// The letter of the opposite direction: north and south, east and west swapped.
pub open spec fn opposite_letter(c: char) -> char {
    if c == 'N' {
        'S'
    } else if c == 'S' {
        'N'
    } else if c == 'E' {
        'W'
    } else if c == 'W' {
        'E'
    } else {
        c
    }
}

/// The compass point eight sectors (half a turn) away is named by swapping north
/// with south and east with west.
pub proof fn lemma_compass_opposites(point: usize)
    requires
        point < 16,
    ensures
        compass_name(((point + 8) % 16) as usize) == compass_name(point).map_values(
            |c: char| opposite_letter(c),
        ),
{
    reveal_strlit("N");
    reveal_strlit("NNE");
    reveal_strlit("NE");
    reveal_strlit("ENE");
    reveal_strlit("E");
    reveal_strlit("ESE");
    reveal_strlit("SE");
    reveal_strlit("SSE");
    reveal_strlit("S");
    reveal_strlit("SSW");
    reveal_strlit("SW");
    reveal_strlit("WSW");
    reveal_strlit("W");
    reveal_strlit("WNW");
    reveal_strlit("NW");
    reveal_strlit("NNW");
    assert(compass_name(((point + 8) % 16) as usize) =~= compass_name(point).map_values(
        |c: char| opposite_letter(c),
    ));
}

} // verus!
