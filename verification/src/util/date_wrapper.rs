//! A point in time as the service receives it in a request.

use vstd::prelude::*;
use crate::util::document::{BsonModel, bson_model, bson_date_time};

verus! {

/// A UTC date and time, kept as BSON keeps it: milliseconds since the Unix
/// epoch. Requests carry it as an RFC 3339 string.
#[derive(Clone, Copy, Debug, PartialEq, Eq)]
pub struct DateWrapper {
    pub millis: i64,
}

impl DateWrapper {
    /// The date as a BSON `DateTime` value.
    pub fn into_bson(self) -> (b: bson::Bson)
        ensures
            bson_model(b) == BsonModel::DateTime(self.millis),
    {
        bson_date_time(self.millis)
    }
}

} // verus!
