//! A crew sequence as the `sequence` collection stores it.

use vstd::prelude::*;

verus! {

/// One sequence (a pairing of flights) of an airline's contract month.
#[derive(Debug, Clone)]
pub struct Sequence {
    /// The twelve bytes of the document's object id.
    pub _id: [u8; 12],
    pub airline_code: String,
    pub contract_month: String,
    pub seq_type: String,
    pub base: String,
    pub observation_trip: bool,
    pub base_indicator: String,
    /// Milliseconds since the Unix epoch.
    pub start_date: i64,
    /// Milliseconds since the Unix epoch.
    pub end_date: i64,
    pub duration_day: i32,
    pub num_legs: i32,
    pub odan: bool,
    pub red_eye: bool,
    pub training: bool,
    pub satellite: bool,
}

} // verus!
