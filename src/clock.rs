use vstd::prelude::*;

verus! {

/// A point in time: whole seconds since the Unix epoch and the nanoseconds
/// past that second.
#[derive(Debug, Clone, Copy, PartialEq, Eq, Structural)]
pub struct Timestamp {
    pub seconds: i64,
    pub nanos: u32,
}

/// Nanoseconds in one day.
pub const NANOS_PER_DAY: i128 = 86_400_000_000_000;

/// The signed distance from `from` to `to`, in nanoseconds.
pub open spec fn nanos_between(from: Timestamp, to: Timestamp) -> int {
    (to.seconds - from.seconds) * 1_000_000_000 + (to.nanos - from.nanos)
}

/// Whole days from `from` to `to`, rounded toward zero.
pub open spec fn days_between(from: Timestamp, to: Timestamp) -> int {
    let d = nanos_between(from, to);
    if d >= 0 {
        d / NANOS_PER_DAY as int
    } else {
        -((-d) / NANOS_PER_DAY as int)
    }
}

/// Relies on chrono's `Utc::now`: the current time, split into seconds and
/// nanoseconds. Nothing is promised of the value.
#[verifier::external_body]
pub(crate) fn now() -> (r: Timestamp) {
    let t = chrono::Utc::now();
    Timestamp { seconds: t.timestamp(), nanos: t.timestamp_subsec_nanos() }
}

impl Timestamp {
    /// Whole days from `self` to `later`, rounded toward zero.
    pub fn days_until(&self, later: Timestamp) -> (r: i64)
        ensures
            r == days_between(*self, later),
    {
        let d: i128 = (later.seconds as i128 - self.seconds as i128) * 1_000_000_000
            + (later.nanos as i128 - self.nanos as i128);
        assert(d == nanos_between(*self, later));
        if d >= 0 {
            assert(d / NANOS_PER_DAY <= 0x7fff_ffff_ffff_ffff) by (nonlinear_arith)
                requires
                    0 <= d <= 0x1_0000_0000_0000_0000 * 1_000_000_000 + 0x1_0000_0000,
            ;
            (d / NANOS_PER_DAY) as i64
        } else {
            let m: i128 = -d;
            assert(m / NANOS_PER_DAY <= 0x7fff_ffff_ffff_ffff) by (nonlinear_arith)
                requires
                    0 <= m <= 0x1_0000_0000_0000_0000 * 1_000_000_000 + 0x1_0000_0000,
            ;
            -((m / NANOS_PER_DAY) as i64)
        }
    }
}

/// A moment is never a negative number of days after an earlier or equal
/// one.
pub proof fn lemma_days_nonnegative(from: Timestamp, to: Timestamp)
    requires
        nanos_between(from, to) >= 0,
    ensures
        days_between(from, to) >= 0,
{
}

} // verus!
