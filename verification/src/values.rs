//! Resolved values the API sends back for entities: dates, intervals and
//! locations.

use vstd::prelude::*;

verus! {

/// A date and time the API resolved, as an ISO 8601 text with a precision
/// grain; the surrounding layer turns the text into a calendar type.
#[derive(Debug, Clone)]
pub struct DateValue {
    /// How precise the time actually is.
    pub grain: String,
    /// An ISO 8601 date-time text.
    pub value: String,
}

/// An interval between two dates.
#[derive(Debug, Clone)]
pub struct IntervalValue {
    /// Where the interval starts.
    pub from: DateValue,
    /// Where the interval ends.
    pub to: DateValue,
}

/// How precise a resolved location is.
#[derive(Debug, Clone, Copy, PartialEq, Eq, Structural)]
pub enum Domains {
    /// A district, a city.
    Locality,
    /// Regions, states.
    Region,
    /// Countries.
    Country,
}

/// GPS coordinates in microdegrees: one microdegree is a millionth of a
/// degree, so a whole number carries the usual six decimals exactly.
#[derive(Debug, Clone, Copy, PartialEq, Eq, Structural)]
pub struct Coords {
    /// Latitude in microdegrees.
    pub lat_micro: i64,
    /// Longitude in microdegrees.
    pub long_micro: i64,
}

/// A resolved location: a typical place or address captured in free text.
#[derive(Debug, Clone)]
pub struct Location {
    /// The name of that location.
    pub name: String,
    /// How precise the location is.
    pub domain: Domains,
    /// A valid timezone name, when known.
    pub timezone: Option<String>,
    /// Possible GPS coordinates.
    pub coords: Option<Coords>,
    /// External data identifiers, as name and value pairs.
    pub external: Vec<(String, String)>,
}

/// The resolved value shapes the API sends back.
#[derive(Debug, Clone)]
pub enum ValueTypes {
    /// An interval between two dates.
    Interval(IntervalValue),
    /// A location.
    Location(Location),
}

} // verus!
