//! Instants on the UTC time line.
use vstd::arithmetic::div_mod::{lemma_fundamental_div_mod, lemma_fundamental_div_mod_converse};
use vstd::prelude::*;

verus! {

/// An instant in UTC, as the number of non-leap milliseconds since
/// 1970-01-01T00:00:00Z (negative before it).
#[derive(Clone, Copy, Debug, PartialEq, Eq, Structural)]
pub struct TimePoint {
    pub millis: i64,
}

/// The whole second in which an instant of `millis` milliseconds lies: the
/// milliseconds divided by 1000, rounded down.
pub open spec fn seconds_of(millis: int) -> int {
    millis / 1000
}

impl TimePoint {
    pub fn from_millis(millis: i64) -> (r: TimePoint)
        ensures
            r.millis == millis,
    {
        TimePoint { millis }
    }

    pub fn millis(&self) -> (r: i64)
        ensures
            r == self.millis,
    {
        self.millis
    }

    /// The Unix time of this instant in whole seconds, rounded down (towards
    /// the past, also before 1970).
    pub fn unix_seconds(&self) -> (r: i64)
        ensures
            r == seconds_of(self.millis as int),
    {
        let m = self.millis;
        if m >= 0 {
            m / 1000
        } else {
            let u: i64 = -(m + 1);
            let q: i64 = u / 1000;
            proof {
                lemma_fundamental_div_mod(u as int, 1000);
                lemma_fundamental_div_mod_converse(
                    m as int,
                    1000,
                    -q - 1,
                    999 - u % 1000,
                );
            }
            -q - 1
        }
    }
}

} // verus!
