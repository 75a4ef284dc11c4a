//! Spans of time used for refresh cadences.

use vstd::prelude::*;

verus! {

/// Nanoseconds in one second.
pub const NANOS_PER_SEC: u32 = 1_000_000_000;

/// Nanoseconds in one millisecond.
pub const NANOS_PER_MILLI: u32 = 1_000_000;

/// Milliseconds in one second.
pub const MILLIS_PER_SEC: u64 = 1_000;

/// A span of time: whole seconds plus a sub-second part in nanoseconds.
///
/// The sub-second part is always less than one second, so every span has a
/// single representation and its view, the total number of nanoseconds,
/// identifies it.
#[derive(Clone, Copy, Debug, PartialEq, Eq)]
pub struct Interval {
    secs: u64,
    nanos: u32,
}

impl View for Interval {
    type V = nat;

    /// The span as a total number of nanoseconds.
    closed spec fn view(&self) -> nat {
        (self.secs * NANOS_PER_SEC + self.nanos) as nat
    }
}

impl Interval {
    #[verifier::type_invariant]
    spec fn normalized(self) -> bool {
        self.nanos < NANOS_PER_SEC
    }

    /// A span of `secs` whole seconds.
    pub fn from_secs(secs: u64) -> (r: Interval)
        ensures
            r@ == secs * NANOS_PER_SEC,
    {
        Interval { secs, nanos: 0 }
    }

    /// A span of `millis` whole milliseconds.
    pub fn from_millis(millis: u64) -> (r: Interval)
        ensures
            r@ == millis * NANOS_PER_MILLI,
    {
        let secs: u64 = millis / MILLIS_PER_SEC;
        let rest: u64 = millis % MILLIS_PER_SEC;
        let nanos: u32 = (rest as u32) * NANOS_PER_MILLI;
        Interval { secs, nanos }
    }

    /// A span of `secs` seconds and `nanos` nanoseconds. A nanosecond part of
    /// a second or more is carried into the seconds; the result is `None`
    /// exactly when the carried seconds no longer fit.
    pub fn new(secs: u64, nanos: u32) -> (r: Option<Interval>)
        ensures
            r is Some <==> secs + nanos / NANOS_PER_SEC <= u64::MAX,
            r matches Some(i) ==> i@ == secs * NANOS_PER_SEC + nanos,
    {
        let carry: u64 = (nanos / NANOS_PER_SEC) as u64;
        let rest: u32 = nanos % NANOS_PER_SEC;
        match secs.checked_add(carry) {
            Some(total) => Some(Interval { secs: total, nanos: rest }),
            None => None,
        }
    }

    /// The whole seconds of the span.
    pub fn secs(&self) -> (s: u64)
        ensures
            s == self@ / (NANOS_PER_SEC as nat),
    {
        proof {
            use_type_invariant(self);
        }
        self.secs
    }

    /// The part of the span below one second, in nanoseconds.
    pub fn subsec_nanos(&self) -> (n: u32)
        ensures
            n == self@ % (NANOS_PER_SEC as nat),
            n < NANOS_PER_SEC,
    {
        proof {
            use_type_invariant(self);
        }
        self.nanos
    }

    /// Whether this span is no longer than `other`.
    pub fn le(&self, other: &Interval) -> (b: bool)
        ensures
            b == (self@ <= other@),
    {
        proof {
            use_type_invariant(self);
            use_type_invariant(other);
        }
        self.secs < other.secs || (self.secs == other.secs && self.nanos <= other.nanos)
    }

    /// The longer of this span and `floor`.
    pub fn at_least(self, floor: Interval) -> (r: Interval)
        ensures
            r == (if floor@ <= self@ { self } else { floor }),
    {
        if floor.le(&self) {
            self
        } else {
            floor
        }
    }
}

} // verus!
