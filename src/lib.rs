//! Weather tools over the Open-Meteo provider: input validation, query
//! building, defensive report formatting and tool dispatch decisions.

pub mod conditions;
pub mod coords;
pub mod dates;
pub mod params;
pub mod query;
pub mod report;
pub mod text;
pub mod tools;
pub mod transport;
