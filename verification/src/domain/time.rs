//! Instants on the UTC time line, held as plain numbers.
use vstd::prelude::*;

verus! {

/// An instant in UTC: whole seconds since the Unix epoch and the
/// nanoseconds past that second (always below one second).
#[derive(Clone, Copy, Debug)]
pub struct UtcTimestamp {
    secs: i64,
    subsec_nanos: u32,
}

/// Nanoseconds in one second.
pub const NANOS_PER_SEC: u32 = 1_000_000_000;

/// Division by 1000 that rounds toward zero.
pub open spec fn trunc_div_1000(x: int) -> int {
    if x >= 0 {
        x / 1000
    } else {
        -((-x) / 1000)
    }
}

impl UtcTimestamp {
    #[verifier::type_invariant]
    spec fn nanos_below_one_second(self) -> bool {
        self.subsec_nanos < NANOS_PER_SEC
    }

    /// Whole seconds since the epoch.
    pub closed spec fn spec_secs(self) -> i64 {
        self.secs
    }

    /// Nanoseconds past the whole second.
    pub closed spec fn spec_subsec_nanos(self) -> u32 {
        self.subsec_nanos
    }

    /// The instant as nanoseconds since the epoch.
    pub open spec fn total_nanos(self) -> int {
        self.spec_secs() * 1_000_000_000 + self.spec_subsec_nanos()
    }

    /// The instant `secs` seconds and `subsec_nanos` nanoseconds after the
    /// epoch; `None` when `subsec_nanos` is a second or more.
    pub fn new(secs: i64, subsec_nanos: u32) -> (res: Option<Self>)
        ensures
            res is Some <==> subsec_nanos < NANOS_PER_SEC,
            res matches Some(t) ==> t.spec_secs() == secs && t.spec_subsec_nanos()
                == subsec_nanos,
    {
        if subsec_nanos < NANOS_PER_SEC {
            Some(UtcTimestamp { secs, subsec_nanos })
        } else {
            None
        }
    }

    pub fn secs(&self) -> (r: i64)
        ensures
            r == self.spec_secs(),
    {
        self.secs
    }

    pub fn subsec_nanos(&self) -> (r: u32)
        ensures
            r == self.spec_subsec_nanos(),
            r < NANOS_PER_SEC,
    {
        proof {
            use_type_invariant(self);
        }
        self.subsec_nanos
    }
}

/// The time from `earlier` to `later` in whole microseconds, rounded toward
/// zero, when that fits in an `i64` (chrono's
/// `(later - earlier).num_microseconds()`).
pub open spec fn micros_between(later: UtcTimestamp, earlier: UtcTimestamp) -> Option<int> {
    let m: int = trunc_div_1000(later.total_nanos() - earlier.total_nanos());
    if i64::MIN <= m <= i64::MAX {
        Some(m)
    } else {
        None
    }
}

/// The elapsed time that the pipeline records: the microseconds from
/// `start` to `end`, with a negative or unrepresentable span counted as 0.
pub open spec fn elapsed_micros_spec(start: UtcTimestamp, end: UtcTimestamp) -> int {
    match micros_between(end, start) {
        Some(m) => if m > 0 {
            m
        } else {
            0
        },
        None => 0,
    }
}

/// Microseconds from `start` to `end`, never negative:
/// `(end - start).num_microseconds().unwrap_or(0).max(0)`.
pub fn elapsed_micros(start: &UtcTimestamp, end: &UtcTimestamp) -> (r: i64)
    ensures
        r == elapsed_micros_spec(*start, *end),
        r >= 0,
        ({
            let d = (end.spec_secs() - start.spec_secs()) * 1_000_000_000 + end.spec_subsec_nanos()
                - start.spec_subsec_nanos();
            r == if 1000 <= d && d / 1000 <= i64::MAX {
                d / 1000
            } else {
                0
            }
        }),
{
    proof {
        lemma_elapsed_is_whole_microseconds(*start, *end);
    }
    let secs_diff: i128 = (end.secs as i128) - (start.secs as i128);
    let nanos_diff: i128 = (end.subsec_nanos as i128) - (start.subsec_nanos as i128);
    assert(-0x1_0000_0000_0000_0000 <= secs_diff <= 0x1_0000_0000_0000_0000);
    assert(-0x1_0000_0000_0000_0000 * 1_000_000_000 <= secs_diff * 1_000_000_000
        <= 0x1_0000_0000_0000_0000 * 1_000_000_000) by (nonlinear_arith)
        requires
            -0x1_0000_0000_0000_0000 <= secs_diff <= 0x1_0000_0000_0000_0000,
    ;
    let total: i128 = secs_diff * 1_000_000_000 + nanos_diff;
    assert(total == end.total_nanos() - start.total_nanos()) by (nonlinear_arith)
        requires
            total == secs_diff * 1_000_000_000 + nanos_diff,
            secs_diff == end.spec_secs() - start.spec_secs(),
            nanos_diff == end.spec_subsec_nanos() - start.spec_subsec_nanos(),
    ;
    let micros: i128 = if total >= 0 {
        total / 1000
    } else {
        -((-total) / 1000)
    };
    if micros > 0 && micros <= (i64::MAX as i128) {
        micros as i64
    } else {
        0
    }
}

/// The elapsed time is the whole number of microseconds in the span from
/// `start` to `end`, counted from both instants' seconds and nanoseconds
/// (the sub-second parts included): when the span is at least one
/// microsecond and its microseconds fit in an `i64`, the result is the span
/// in nanoseconds divided by 1000 and rounded down; a shorter or negative
/// span gives 0, and so does one too long to count.
pub proof fn lemma_elapsed_is_whole_microseconds(start: UtcTimestamp, end: UtcTimestamp)
    ensures
        ({
            let d = (end.spec_secs() - start.spec_secs()) * 1_000_000_000 + end.spec_subsec_nanos()
                - start.spec_subsec_nanos();
            &&& 1000 <= d && d / 1000 <= i64::MAX ==> elapsed_micros_spec(start, end) == d / 1000
            &&& d < 1000 ==> elapsed_micros_spec(start, end) == 0
            &&& d / 1000 > i64::MAX ==> elapsed_micros_spec(start, end) == 0
        }),
{
    let d = (end.spec_secs() - start.spec_secs()) * 1_000_000_000 + end.spec_subsec_nanos()
        - start.spec_subsec_nanos();
    assert(end.total_nanos() - start.total_nanos() == d);
    if d < 0 {
        assert(trunc_div_1000(d) <= 0);
    }
}

} // verus!
