//! Domain model for the upstream status document.
//!
//! Every field is a plain value. Instants are UTC Unix timestamps in whole
//! seconds (`i64`); geographic coordinates and pressure readings, which the
//! pipeline only passes through and never computes with, are carried as the
//! raw bit patterns of IEEE-754 double-precision values (`u64`).

use vstd::prelude::*;

verus! {

/// A network member id.
pub type Cid = u32;

/// One ATIS station of the status document; passed through unmodified.
#[derive(Debug, Clone, PartialEq)]
pub struct Atis {
    pub atis_code: Option<String>,
    pub callsign: String,
    pub cid: Cid,
    pub facility: u8,
    pub frequency: String,
    /// UTC Unix timestamp, whole seconds.
    pub last_updated: i64,
    /// UTC Unix timestamp, whole seconds.
    pub logon_time: i64,
    pub name: String,
    pub rating: u8,
    pub server: String,
    pub text_atis: Option<Vec<String>>,
    pub visual_range: u32,
}

/// One connected controller.
#[derive(Debug, Clone, PartialEq)]
pub struct Controller {
    pub callsign: String,
    pub cid: Cid,
    /// Foreign key into the snapshot's `facilities` sequence.
    pub facility: u8,
    pub frequency: String,
    /// UTC Unix timestamp, whole seconds.
    pub last_updated: i64,
    /// UTC Unix timestamp, whole seconds.
    pub logon_time: i64,
    pub name: String,
    pub rating: u8,
    pub server: String,
    pub text_atis: Option<Vec<String>>,
    pub visual_range: u32,
}

/// An air-traffic-control position kind, referenced by id from controllers.
#[derive(Debug, Clone, PartialEq)]
pub struct Facility {
    pub id: u8,
    pub long: String,
    pub short: String,
}

/// Header block of the status document.
#[derive(Debug, Clone, PartialEq)]
pub struct VatsimGeneral {
    pub connected_clients: u32,
    pub reload: u8,
    pub unique_users: u32,
    pub update: String,
    /// UTC Unix timestamp, whole seconds: the authoritative freshness marker.
    pub update_timestamp: i64,
    pub version: u8,
}

/// One pilot-rating row; passed through unmodified.
#[derive(Debug, Clone, PartialEq)]
pub struct PilotRating {
    pub id: u8,
    pub long_name: String,
    pub short_name: String,
}

/// Flight rules of a filed plan: instrument, visual, special visual, or
/// defence visual. Unrecognized codes are rejected during parsing rather
/// than defaulted.
#[derive(Debug, Clone, PartialEq, Eq, Structural)]
pub enum FlightRule {
    I,
    V,
    S,
    D,
}

/// A filed flight plan. `departure` and `arrival` hold an ICAO airport code
/// or the empty string; empty codes are excluded from airport aggregation.
#[derive(Debug, Clone, PartialEq)]
pub struct FlightPlan {
    pub aircraft: String,
    pub aircraft_faa: String,
    pub aircraft_short: String,
    pub alternative: Option<String>,
    pub altitude: String,
    pub arrival: String,
    pub assigned_transponder: String,
    pub cruise_tas: String,
    pub departure: String,
    pub deptime: String,
    pub enroute_time: String,
    pub flight_rules: FlightRule,
    pub fuel_time: String,
    pub remarks: String,
    pub revision_id: u32,
    pub route: String,
}

/// One connected pilot.
#[derive(Debug, Clone, PartialEq)]
pub struct Pilot {
    pub altitude: i32,
    pub callsign: String,
    pub cid: Cid,
    pub flight_plan: Option<FlightPlan>,
    pub groundspeed: i32,
    pub heading: u16,
    pub last_updated: String,
    /// Raw IEEE-754 bits of the latitude in degrees.
    pub latitude_bits: u64,
    /// UTC Unix timestamp, whole seconds.
    pub logon_time: i64,
    /// Raw IEEE-754 bits of the longitude in degrees.
    pub longitude_bits: u64,
    pub name: String,
    pub pilot_rating: u8,
    /// Raw IEEE-754 bits of the altimeter setting in inches of mercury.
    pub qnh_i_hg_bits: u64,
    /// Raw IEEE-754 bits of the altimeter setting in millibars.
    pub qnh_mb_bits: u64,
    pub server: String,
    pub transponder: String,
}

/// A filed flight plan with no associated live pilot session yet.
#[derive(Debug, Clone, PartialEq)]
pub struct Prefile {
    pub callsign: String,
    pub cid: Cid,
    pub flight_plan: FlightPlan,
    pub last_updated: String,
    pub name: String,
}

/// One network server row; passed through unmodified.
#[derive(Debug, Clone, PartialEq)]
pub struct Server {
    pub client_connections_allowed: bool,
    pub hostname_or_ip: String,
    pub ident: String,
    pub is_sweatbox: bool,
    pub location: String,
    pub name: String,
}

/// One complete, immutable parsed status document. Replacement is atomic and
/// whole: no snapshot is mutated after construction.
#[derive(Debug, Clone, PartialEq)]
pub struct VatsimStatus {
    pub general: VatsimGeneral,
    pub pilots: Vec<Pilot>,
    pub controllers: Vec<Controller>,
    pub atis: Vec<Atis>,
    pub facilities: Vec<Facility>,
    pub pilot_ratings: Vec<PilotRating>,
    pub prefiles: Vec<Prefile>,
    pub servers: Vec<Server>,
}

/// Recognizes the single-letter flight-rule codes of the upstream format.
/// Any other code is a schema error, reported as `None`.
pub fn parse_flight_rule(code: char) -> (r: Option<FlightRule>)
    ensures
        code == 'I' ==> r == Some(FlightRule::I),
        code == 'V' ==> r == Some(FlightRule::V),
        code == 'S' ==> r == Some(FlightRule::S),
        code == 'D' ==> r == Some(FlightRule::D),
        code != 'I' && code != 'V' && code != 'S' && code != 'D' ==> r is None,
{
    if code == 'I' {
        Some(FlightRule::I)
    } else if code == 'V' {
        Some(FlightRule::V)
    } else if code == 'S' {
        Some(FlightRule::S)
    } else if code == 'D' {
        Some(FlightRule::D)
    } else {
        None
    }
}

} // verus!
