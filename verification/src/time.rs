//! Playback time as a whole number of seconds plus a sub-second nanosecond
//! part, mirroring how positions and seek targets are reported to callers.

use vstd::arithmetic::div_mod::lemma_div_is_ordered;
use vstd::arithmetic::mul::lemma_mul_inequality;
use vstd::prelude::*;

verus! {

/// A point in a track's timeline: `secs` whole seconds plus `nanos`
/// nanoseconds, with `nanos` kept below one billion.
#[derive(Clone, Copy, Debug, PartialEq, Eq, Structural)]
pub struct Timestamp {
    pub secs: u64,
    pub nanos: u32,
}

pub const NANOS_PER_SEC: u32 = 1_000_000_000;

impl Timestamp {
    /// A timestamp is well formed when its nanosecond part has not
    /// overflowed into whole seconds.
    pub open spec fn wf(self) -> bool {
        self.nanos < NANOS_PER_SEC
    }

    /// The whole timestamp as a single count of nanoseconds.
    pub open spec fn as_nanos(self) -> int {
        self.secs * (NANOS_PER_SEC as int) + self.nanos
    }

    pub fn new(secs: u64, nanos: u32) -> (r: Timestamp)
        requires
            nanos < NANOS_PER_SEC,
        ensures
            r == (Timestamp { secs, nanos }),
            r.wf(),
    {
        Timestamp { secs, nanos }
    }

    pub fn zero() -> (r: Timestamp)
        ensures
            r == (Timestamp { secs: 0u64, nanos: 0u32 }),
            r.as_nanos() == 0,
    {
        Timestamp { secs: 0, nanos: 0 }
    }

    /// Timeline order: earlier-or-equal.
    pub fn le(&self, other: &Timestamp) -> (r: bool)
        requires
            self.wf(),
            other.wf(),
        ensures
            r == (self.as_nanos() <= other.as_nanos()),
    {
        if self.secs != other.secs {
            self.secs < other.secs
        } else {
            self.nanos <= other.nanos
        }
    }
}

/// A codec time base: the duration of one codec tick as the rational
/// `numer / denom` seconds.
#[derive(Clone, Copy, Debug, PartialEq, Eq, Structural)]
pub struct TimeBase {
    pub numer: u32,
    pub denom: u32,
}

impl TimeBase {
    /// A time base is well formed when both parts are non-zero.
    pub open spec fn wf(self) -> bool {
        self.numer > 0 && self.denom > 0
    }

    /// `ticks` codec ticks as a timestamp: exactly
    /// `ticks * numer / denom` seconds, truncated to whole nanoseconds,
    /// saturating at the largest representable timestamp.
    pub open spec fn spec_calc_time(self, ticks: u64) -> Timestamp {
        let total = ticks * self.numer;
        if total / (self.denom as int) > u64::MAX {
            Timestamp { secs: u64::MAX, nanos: (NANOS_PER_SEC - 1) as u32 }
        } else {
            Timestamp {
                secs: (total / (self.denom as int)) as u64,
                nanos: ((total % (self.denom as int)) * NANOS_PER_SEC / (self.denom as int)) as u32,
            }
        }
    }

    /// Convert a codec tick count to wall-clock time.
    pub fn calc_time(&self, ticks: u64) -> (r: Timestamp)
        requires
            self.wf(),
        ensures
            r == self.spec_calc_time(ticks),
            r.wf(),
    {
        proof {
            assert(ticks * self.numer <= u64::MAX * u32::MAX) by (nonlinear_arith)
                requires
                    0 <= ticks <= u64::MAX,
                    0 <= self.numer <= u32::MAX,
            ;
        }
        let total: u128 = (ticks as u128) * (self.numer as u128);
        let d: u128 = self.denom as u128;
        let secs: u128 = total / d;
        if secs > u64::MAX as u128 {
            Timestamp { secs: u64::MAX, nanos: NANOS_PER_SEC - 1 }
        } else {
            let rem: u128 = total % d;
            proof {
                assert(rem * NANOS_PER_SEC <= u32::MAX * NANOS_PER_SEC) by (nonlinear_arith)
                    requires
                        0 <= rem <= u32::MAX,
                ;
                assert(rem * NANOS_PER_SEC / (d as int) < NANOS_PER_SEC) by (nonlinear_arith)
                    requires
                        0 <= rem < d,
                        0 < d,
                ;
            }
            let nanos: u128 = rem * (NANOS_PER_SEC as u128) / d;
            Timestamp { secs: secs as u64, nanos: nanos as u32 }
        }
    }
}

/// A converted timestamp always has a well-formed nanosecond part.
pub proof fn lemma_calc_time_wf(tb: TimeBase, ticks: u64)
    requires
        tb.wf(),
    ensures
        tb.spec_calc_time(ticks).wf(),
{
    let total = ticks * tb.numer;
    let d = tb.denom as int;
    if total / d <= u64::MAX {
        let rem = total % d;
        assert(0 <= rem < d);
        assert(rem * NANOS_PER_SEC / d < NANOS_PER_SEC) by (nonlinear_arith)
            requires
                0 <= rem < d,
                0 < d,
        ;
    }
}

/// Tick-to-time conversion is monotone: packets with nondecreasing
/// timestamps convert to nondecreasing playback positions.
pub proof fn lemma_calc_time_monotonic(tb: TimeBase, t1: u64, t2: u64)
    requires
        tb.wf(),
        t1 <= t2,
    ensures
        tb.spec_calc_time(t1).as_nanos() <= tb.spec_calc_time(t2).as_nanos(),
{
    lemma_calc_time_wf(tb, t1);
    lemma_calc_time_wf(tb, t2);
    let d = tb.denom as int;
    let total1 = t1 * tb.numer;
    let total2 = t2 * tb.numer;
    lemma_mul_inequality(t1 as int, t2 as int, tb.numer as int);
    assert(0 <= total1 && 0 <= total2) by (nonlinear_arith)
        requires
            0 <= t1,
            0 <= t2,
            0 <= tb.numer,
            total1 == t1 * tb.numer,
            total2 == t2 * tb.numer,
    ;
    lemma_div_is_ordered(total1, total2, d);
    assert(0 <= total1 / d && 0 <= total2 / d) by (nonlinear_arith)
        requires
            0 <= total1,
            0 <= total2,
            0 < d,
    ;
    let r1 = tb.spec_calc_time(t1);
    let r2 = tb.spec_calc_time(t2);
    if total2 / d > u64::MAX {
        // The second position saturates at the largest timestamp, and a
        // well-formed timestamp can never exceed it.
        assert(r2.secs == u64::MAX && r2.nanos == NANOS_PER_SEC - 1);
        assert(r1.secs <= u64::MAX);
        assert(r1.as_nanos() <= u64::MAX * (NANOS_PER_SEC as int) + (NANOS_PER_SEC - 1)) by {
            lemma_mul_inequality(r1.secs as int, u64::MAX as int, NANOS_PER_SEC as int);
        }
    } else {
        let q1 = total1 / d;
        let q2 = total2 / d;
        if q1 == q2 {
            let rem1 = total1 % d;
            let rem2 = total2 % d;
            assert(rem1 <= rem2) by {
                vstd::arithmetic::div_mod::lemma_fundamental_div_mod(total1, d);
                vstd::arithmetic::div_mod::lemma_fundamental_div_mod(total2, d);
            }
            assert(0 <= rem1 * NANOS_PER_SEC / d < NANOS_PER_SEC) by (nonlinear_arith)
                requires
                    0 <= rem1 < d,
                    0 < d,
            ;
            assert(0 <= rem2 * NANOS_PER_SEC / d < NANOS_PER_SEC) by (nonlinear_arith)
                requires
                    0 <= rem2 < d,
                    0 < d,
            ;
            assert(r1.nanos == rem1 * NANOS_PER_SEC / d);
            assert(r2.nanos == rem2 * NANOS_PER_SEC / d);
            assert(rem1 * NANOS_PER_SEC <= rem2 * NANOS_PER_SEC) by {
                lemma_mul_inequality(rem1, rem2, NANOS_PER_SEC as int);
            }
            lemma_div_is_ordered(rem1 * NANOS_PER_SEC, rem2 * NANOS_PER_SEC, d);
        } else {
            assert(q1 < q2);
            assert(r1.as_nanos() < (q1 + 1) * (NANOS_PER_SEC as int)) by (nonlinear_arith)
                requires
                    r1.as_nanos() == q1 * (NANOS_PER_SEC as int) + r1.nanos,
                    r1.nanos < NANOS_PER_SEC,
            ;
            assert((q1 + 1) * (NANOS_PER_SEC as int) <= q2 * (NANOS_PER_SEC as int)) by {
                lemma_mul_inequality(q1 + 1, q2, NANOS_PER_SEC as int);
            }
        }
    }
}

} // verus!
