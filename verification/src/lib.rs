//! The verified core of a terminal weather report: choosing and naming the
//! place, labelling weather codes, and shaping the text that is shown.
pub mod format;
pub mod location;
pub mod text;
pub mod units;
pub mod weather;

pub use format::{first, first_str, paint, short_datetime, short_time};
pub use location::{
    check_ip_reply, choose_location_source, ip_location_name, join_location_parts,
    search_location_name, LocationSource,
};
pub use units::Units;
pub use weather::{compass_point, weather_condition, weather_description};
