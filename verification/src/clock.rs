//! Points in time, as seconds and nanoseconds since the Unix epoch.

use vstd::prelude::*;

verus! {

/// A UTC instant: whole seconds since the Unix epoch, and nanoseconds into
/// that second (above 999,999,999 only during a leap second).
#[derive(Clone, Copy, Debug, PartialEq, Eq, Structural)]
pub struct Timestamp {
    pub secs: i64,
    pub nanos: u32,
}

/// `a` is strictly earlier than `b`.
pub open spec fn is_before(a: Timestamp, b: Timestamp) -> bool {
    a.secs < b.secs || (a.secs == b.secs && a.nanos < b.nanos)
}

impl Timestamp {
    /// Whether `self` is strictly earlier than `other`.
    pub fn before(&self, other: &Timestamp) -> (r: bool)
        ensures
            r == is_before(*self, *other),
    {
        self.secs < other.secs || (self.secs == other.secs && self.nanos < other.nanos)
    }

    /// `self` moved `secs` seconds later.
    pub fn plus_seconds(&self, secs: i64) -> (r: Timestamp)
        requires
            0 <= secs,
            self.secs + secs <= i64::MAX,
        ensures
            r.secs == self.secs + secs,
            r.nanos == self.nanos,
    {
        Timestamp { secs: self.secs + secs, nanos: self.nanos }
    }
}

/// Upper bound (exclusive) on the seconds of any instant the clock reports:
/// later than any year the calendar can hold.
pub const CLOCK_SECS_LIMIT: i64 = 10_000_000_000_000;

/// `t` is an instant the clock can report.
pub open spec fn clock_reading(t: Timestamp) -> bool {
    0 <= t.secs < CLOCK_SECS_LIMIT && t.nanos < 1_000_000_000
}

/// `chrono::Utc::now`, read as seconds and subsecond nanoseconds. Trusted:
/// the clock reads the system time since the Unix epoch (it panics before
/// it), in chrono's calendar range, with nanoseconds below one second.
/// Which instant comes back is not stated.
#[verifier::external_body]
pub(crate) fn now() -> (t: Timestamp)
    ensures
        clock_reading(t),
{
    let now = chrono::Utc::now();
    Timestamp { secs: now.timestamp(), nanos: now.timestamp_subsec_nanos() }
}

/// Instants are ordered by seconds, then nanoseconds: `a` is before `b`
/// exactly when it has fewer seconds, or as many and fewer nanoseconds.
/// No instant is before itself, of two distinct instants exactly one is
/// before the other, and the order is transitive.
pub proof fn law_chronological_order(a: Timestamp, b: Timestamp, c: Timestamp)
    ensures
        is_before(a, b) <==> (a.secs < b.secs || (a.secs == b.secs && a.nanos < b.nanos)),
        !is_before(a, a),
        is_before(a, b) ==> !is_before(b, a),
        a != b ==> (is_before(a, b) || is_before(b, a)),
        is_before(a, b) && is_before(b, c) ==> is_before(a, c),
{
}

} // verus!
