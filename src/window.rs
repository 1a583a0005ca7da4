//! Progress of a sample instant through an explicit time window.
use crate::rounding::{lemma_round_monotone, lemma_round_of_multiple, pow10, round, rounded};
use crate::time_point::TimePoint;
use vstd::prelude::*;

verus! {

/// Number of decimal digits to which fractions are rounded: a fraction is
/// reported as a count of thousandths.
pub const FRACTION_DIGITS: u32 = 3;

/// Why a window has no elapsed fraction to report.
#[derive(Clone, Copy, Debug, PartialEq, Eq, Structural)]
pub enum WindowError {
    /// No sample instant has been set yet.
    NoSampleSet,
    /// The window starts where it ends, so the fraction is undefined.
    DegenerateWindow,
    /// The window ends before it starts (checked windows only).
    InvalidWindow,
    /// The sample lies outside the window (checked windows only).
    OutOfRange,
}

/// The elapsed fraction of the window `[start, end]` at `sample`, all in
/// milliseconds, in thousandths rounded half away from zero; or why there is
/// none. An unchecked window reports any ordering of the three instants.
pub open spec fn elapsed_fraction(start: int, end: int, sample: int, checked: bool) -> Result<
    int,
    WindowError,
> {
    if end == start {
        Err(WindowError::DegenerateWindow)
    } else if checked && end < start {
        Err(WindowError::InvalidWindow)
    } else if checked && !(start <= sample && sample <= end) {
        Err(WindowError::OutOfRange)
    } else {
        Ok(rounded(sample - start, end - start, FRACTION_DIGITS as nat))
    }
}

/// An executable result that holds the same as a mathematical one.
pub open spec fn result_is(r: Result<i128, WindowError>, s: Result<int, WindowError>) -> bool {
    match r {
        Ok(v) => s == Ok::<int, WindowError>(v as int),
        Err(e) => s == Err::<int, WindowError>(e),
    }
}

/// A time window from `start` to `end`, with an optional sample instant and
/// the values derived from it.
pub struct TimeWindow {
    start: TimePoint,
    end: TimePoint,
    sample: Option<TimePoint>,
    checked: bool,
    total_millis: i128,
    elapsed_millis: i128,
    remaining_millis: i128,
    percentage: Result<i128, WindowError>,
}

impl TimeWindow {
    pub closed spec fn start_point(&self) -> TimePoint {
        self.start
    }

    pub closed spec fn end_point(&self) -> TimePoint {
        self.end
    }

    pub closed spec fn sample_point(&self) -> Option<TimePoint> {
        self.sample
    }

    /// Whether the window rejects a reversed window and an out-of-range sample.
    pub closed spec fn is_checked(&self) -> bool {
        self.checked
    }

    /// What `get_percentage` reports for the current state.
    pub open spec fn percentage_spec(&self) -> Result<int, WindowError> {
        match self.sample_point() {
            None => Err(WindowError::NoSampleSet),
            Some(s) => elapsed_fraction(
                self.start_point().millis as int,
                self.end_point().millis as int,
                s.millis as int,
                self.is_checked(),
            ),
        }
    }

    /// The cached values agree with the instants they are derived from.
    pub closed spec fn wf(&self) -> bool {
        &&& result_is(self.percentage, self.percentage_spec())
        &&& self.sample matches Some(s) ==> {
            &&& self.total_millis == self.end.millis - self.start.millis
            &&& self.elapsed_millis == s.millis - self.start.millis
            &&& self.remaining_millis == self.end.millis - s.millis
        }
    }

    fn with_mode(start: TimePoint, end: TimePoint, checked: bool) -> (r: TimeWindow)
        ensures
            r.wf(),
            r.start_point() == start,
            r.end_point() == end,
            r.sample_point() is None,
            r.is_checked() == checked,
    {
        TimeWindow {
            start,
            end,
            sample: None,
            checked,
            total_millis: 0,
            elapsed_millis: 0,
            remaining_millis: 0,
            percentage: Err(WindowError::NoSampleSet),
        }
    }

    /// A window from `start` to `end`, taken as given: neither their order nor
    /// the position of a later sample is validated.
    pub fn new(start: TimePoint, end: TimePoint) -> (r: TimeWindow)
        ensures
            r.wf(),
            r.start_point() == start,
            r.end_point() == end,
            r.sample_point() is None,
            !r.is_checked(),
    {
        TimeWindow::with_mode(start, end, false)
    }

    /// A window from `start` to `end` that reports `InvalidWindow` when `end`
    /// precedes `start`, and `OutOfRange` for a sample outside `[start, end]`.
    pub fn new_checked(start: TimePoint, end: TimePoint) -> (r: TimeWindow)
        ensures
            r.wf(),
            r.start_point() == start,
            r.end_point() == end,
            r.sample_point() is None,
            r.is_checked(),
    {
        TimeWindow::with_mode(start, end, true)
    }

    /// Records `t` as the sample instant and recomputes every derived value,
    /// replacing those of an earlier sample.
    pub fn set_point(&mut self, t: TimePoint)
        ensures
            final(self).wf(),
            final(self).start_point() == old(self).start_point(),
            final(self).end_point() == old(self).end_point(),
            final(self).is_checked() == old(self).is_checked(),
            final(self).sample_point() == Some(t),
    {
        self.sample = Some(t);
        self.calculate();
    }

    fn calculate(&mut self)
        requires
            old(self).sample is Some,
        ensures
            final(self).wf(),
            final(self).start == old(self).start,
            final(self).end == old(self).end,
            final(self).checked == old(self).checked,
            final(self).sample == old(self).sample,
    {
        let s = match self.sample {
            Some(s) => s.millis as i128,
            None => 0,
        };
        let a = self.start.millis as i128;
        let b = self.end.millis as i128;
        self.total_millis = b - a;
        self.elapsed_millis = s - a;
        self.remaining_millis = b - s;
        proof {
            reveal_with_fuel(pow10, 4);
            assert(pow10(FRACTION_DIGITS as nat) == 1000);
        }
        self.percentage = if b == a {
            Err(WindowError::DegenerateWindow)
        } else if self.checked && b < a {
            Err(WindowError::InvalidWindow)
        } else if self.checked && !(a <= s && s <= b) {
            Err(WindowError::OutOfRange)
        } else {
            Ok(round(s - a, b - a, FRACTION_DIGITS))
        };
    }

    /// The elapsed fraction at the sample, in thousandths, as computed when the
    /// sample was set; or why there is none.
    pub fn get_percentage(&self) -> (r: Result<i128, WindowError>)
        requires
            self.wf(),
        ensures
            result_is(r, self.percentage_spec()),
    {
        self.percentage
    }

    /// Milliseconds from start to end, once a sample is set.
    pub fn total_millis(&self) -> (r: Option<i128>)
        requires
            self.wf(),
        ensures
            r matches Some(v) ==> v == self.end_point().millis - self.start_point().millis,
            r is Some <==> self.sample_point() is Some,
    {
        match self.sample {
            Some(_) => Some(self.total_millis),
            None => None,
        }
    }

    /// Milliseconds from start to the sample, once a sample is set.
    pub fn elapsed_millis(&self) -> (r: Option<i128>)
        requires
            self.wf(),
        ensures
            r matches Some(v) ==> self.sample_point() matches Some(s) && v == s.millis
                - self.start_point().millis,
            r is Some <==> self.sample_point() is Some,
    {
        match self.sample {
            Some(_) => Some(self.elapsed_millis),
            None => None,
        }
    }

    /// Milliseconds from the sample to end, once a sample is set.
    pub fn remaining_millis(&self) -> (r: Option<i128>)
        requires
            self.wf(),
        ensures
            r matches Some(v) ==> self.sample_point() matches Some(s) && v
                == self.end_point().millis - s.millis,
            r is Some <==> self.sample_point() is Some,
    {
        match self.sample {
            Some(_) => Some(self.remaining_millis),
            None => None,
        }
    }
}

/// In a window that ends after it starts, the elapsed fraction is zero at
/// the start and one whole (a thousand thousandths) at the end.
pub proof fn lemma_fraction_at_edges(start: int, end: int, checked: bool)
    requires
        start < end,
    ensures
        elapsed_fraction(start, end, start, checked) == Ok::<int, WindowError>(0),
        elapsed_fraction(start, end, end, checked) == Ok::<int, WindowError>(1000),
{
    reveal_with_fuel(pow10, 4);
    assert(pow10(FRACTION_DIGITS as nat) == 1000);
    lemma_round_of_multiple(0, end - start);
    lemma_round_of_multiple(1000, end - start);
    assert((end - start) * 1000 == 1000 * (end - start));
}

/// In a window that ends after it starts, the elapsed fraction does not
/// decrease as the sample moves from start to end.
pub proof fn lemma_fraction_monotone(start: int, end: int, s1: int, s2: int, checked: bool)
    requires
        start < end,
        start <= s1 <= s2 <= end,
    ensures
        elapsed_fraction(start, end, s1, checked) matches Ok(f1) && elapsed_fraction(
            start,
            end,
            s2,
            checked,
        ) matches Ok(f2) && 0 <= f1 <= f2,
{
    lemma_round_monotone(s1 - start, s2 - start, end - start, FRACTION_DIGITS as nat);
}

} // verus!
