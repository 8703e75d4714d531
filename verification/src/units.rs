//! The unit systems that a forecast can be requested in.
use vstd::prelude::*;

verus! {

/// The unit system used for temperatures, wind speed and precipitation.
#[derive(Clone, Copy, Debug, PartialEq, Eq, Structural)]
pub enum Units {
    Metric,
    Imperial,
}

/// The name of the temperature unit of a unit system at the forecast service.
pub open spec fn temperature_unit_name(units: Units) -> Seq<char> {
    match units {
        Units::Metric => "celsius"@,
        Units::Imperial => "fahrenheit"@,
    }
}

/// The name of the wind speed unit of a unit system at the forecast service.
pub open spec fn wind_unit_name(units: Units) -> Seq<char> {
    match units {
        Units::Metric => "kmh"@,
        Units::Imperial => "mph"@,
    }
}

/// The name of the precipitation unit of a unit system at the forecast service.
pub open spec fn precipitation_unit_name(units: Units) -> Seq<char> {
    match units {
        Units::Metric => "mm"@,
        Units::Imperial => "inch"@,
    }
}

/// Metric units are degrees Celsius, kilometres per hour and millimetres;
/// imperial units are degrees Fahrenheit, miles per hour and inches; the two
/// systems never share a name for the same quantity.
pub proof fn lemma_unit_names(units: Units)
    ensures
        units == Units::Metric ==> temperature_unit_name(units) == "celsius"@ && wind_unit_name(
            units,
        ) == "kmh"@ && precipitation_unit_name(units) == "mm"@,
        units == Units::Imperial ==> temperature_unit_name(units) == "fahrenheit"@
            && wind_unit_name(units) == "mph"@ && precipitation_unit_name(units) == "inch"@,
        temperature_unit_name(Units::Metric) != temperature_unit_name(Units::Imperial),
        wind_unit_name(Units::Metric) != wind_unit_name(Units::Imperial),
        precipitation_unit_name(Units::Metric) != precipitation_unit_name(Units::Imperial),
{
    reveal_strlit("celsius");
    reveal_strlit("fahrenheit");
    reveal_strlit("kmh");
    reveal_strlit("mph");
    reveal_strlit("mm");
    reveal_strlit("inch");
    assert("kmh"@[0] != "mph"@[0]);
    assert("celsius"@.len() != "fahrenheit"@.len());
    assert("mm"@.len() != "inch"@.len());
}

impl Units {
    /// The name of the temperature unit as the forecast service expects it.
    pub fn temperature_api_value(self) -> (r: &'static str)
        ensures
            r@ == temperature_unit_name(self),
    {
        match self {
            Units::Metric => "celsius",
            Units::Imperial => "fahrenheit",
        }
    }

    /// The name of the wind speed unit as the forecast service expects it.
    pub fn wind_api_value(self) -> (r: &'static str)
        ensures
            r@ == wind_unit_name(self),
    {
        match self {
            Units::Metric => "kmh",
            Units::Imperial => "mph",
        }
    }

    /// The name of the precipitation unit as the forecast service expects it.
    pub fn precipitation_api_value(self) -> (r: &'static str)
        ensures
            r@ == precipitation_unit_name(self),
    {
        match self {
            Units::Metric => "mm",
            Units::Imperial => "inch",
        }
    }
}

impl Default for Units {
    /// Metric units unless asked otherwise.
    fn default() -> (r: Self)
        ensures
            r == Units::Metric,
    {
        Units::Metric
    }
}

} // verus!
