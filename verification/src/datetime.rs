//! Points in time.

use vstd::prelude::*;

verus! {

/// A point in time, in microseconds since the Unix epoch.
#[derive(Clone, Copy, Debug, PartialEq, Eq, Hash, PartialOrd, Ord, Structural)]
pub struct Timestamp {
    micros: i64,
}

impl View for Timestamp {
    type V = i64;

    closed spec fn view(&self) -> i64 {
        self.micros
    }
}

impl Timestamp {
    /// The point in time `micros` microseconds after the Unix epoch.
    pub fn from_micros(micros: i64) -> (res: Timestamp)
        ensures
            res@ == micros,
    {
        Timestamp { micros }
    }

    /// Microseconds since the Unix epoch.
    pub fn as_micros(self) -> (res: i64)
        ensures
            res == self@,
    {
        self.micros
    }
}

} // verus!
