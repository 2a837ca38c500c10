//! Points in time, as whole microseconds since the Unix epoch, in UTC.

use vstd::prelude::*;

verus! {

/// A UTC point in time at whole-microsecond resolution.
#[derive(Clone, Copy, Debug, PartialEq, Eq, PartialOrd, Ord, Hash)]
pub struct Timestamp {
    pub micros: i64,
}

impl Timestamp {
    pub fn from_micros(micros: i64) -> (r: Timestamp)
        ensures
            r.micros == micros,
    {
        Timestamp { micros }
    }
}

} // verus!
