use vstd::prelude::*;

verus! {

/// Nanoseconds in one second.
pub const NANOS_PER_SEC: u32 = 1_000_000_000;

/// A span of time, held as whole seconds and the nanoseconds beyond them,
/// as `std::time::Duration` holds it. Its view is the total in nanoseconds.
#[derive(Debug, Clone, Copy)]
pub struct TimeSpan {
    secs: u64,
    nanos: u32,
}

impl View for TimeSpan {
    type V = nat;

    closed spec fn view(&self) -> nat {
        (self.secs * NANOS_PER_SEC + self.nanos) as nat
    }
}

impl TimeSpan {
    #[verifier::type_invariant]
    closed spec fn wf(self) -> bool {
        self.nanos < NANOS_PER_SEC
    }

    /// A span of `secs` whole seconds.
    pub fn from_secs(secs: u64) -> (t: TimeSpan)
        ensures
            t@ == secs * NANOS_PER_SEC,
    {
        TimeSpan { secs, nanos: 0 }
    }

    /// A span of `millis` milliseconds.
    pub fn from_millis(millis: u64) -> (t: TimeSpan)
        ensures
            t@ == millis * 1_000_000,
    {
        let secs = millis / 1000;
        let rest = millis % 1000;
        let nanos = (rest as u32) * 1_000_000;
        assert(secs * NANOS_PER_SEC + rest * 1_000_000 == millis * 1_000_000) by (nonlinear_arith)
            requires
                secs == millis / 1000,
                rest == millis % 1000,
        ;
        TimeSpan { secs, nanos }
    }

    /// A span of `secs` seconds and `nanos` nanoseconds, with `nanos` below
    /// one second, as `Duration::as_secs` and `Duration::subsec_nanos` give them.
    pub fn from_parts(secs: u64, nanos: u32) -> (t: TimeSpan)
        requires
            nanos < NANOS_PER_SEC,
        ensures
            t@ == secs * NANOS_PER_SEC + nanos,
            t.as_secs_spec() == secs,
            t.subsec_nanos_spec() == nanos,
    {
        TimeSpan { secs, nanos }
    }

    /// The whole seconds of the span.
    pub closed spec fn as_secs_spec(&self) -> u64 {
        self.secs
    }

    /// The nanoseconds beyond the whole seconds.
    pub closed spec fn subsec_nanos_spec(&self) -> u32 {
        self.nanos
    }

    /// The whole seconds of the span.
    pub fn as_secs(&self) -> (s: u64)
        ensures
            s == self.as_secs_spec(),
    {
        self.secs
    }

    /// The nanoseconds beyond the whole seconds, below one second.
    pub fn subsec_nanos(&self) -> (n: u32)
        ensures
            n == self.subsec_nanos_spec(),
            n < NANOS_PER_SEC,
            self@ == self.as_secs_spec() * NANOS_PER_SEC + n,
    {
        proof { use_type_invariant(self); }
        self.nanos
    }

    /// `self - other`, or an empty span where `other` is the longer one.
    pub fn saturating_sub(&self, other: &TimeSpan) -> (t: TimeSpan)
        ensures
            t@ == if self@ >= other@ { self@ - other@ } else { 0 },
    {
        proof {
            use_type_invariant(self);
            use_type_invariant(other);
        }
        if self.secs > other.secs || (self.secs == other.secs && self.nanos >= other.nanos) {
            if self.nanos >= other.nanos {
                TimeSpan { secs: self.secs - other.secs, nanos: self.nanos - other.nanos }
            } else {
                assert(self.secs > other.secs);
                TimeSpan {
                    secs: self.secs - other.secs - 1,
                    nanos: self.nanos + (NANOS_PER_SEC - other.nanos),
                }
            }
        } else {
            assert(self.secs < other.secs || self.nanos < other.nanos);
            TimeSpan { secs: 0, nanos: 0 }
        }
    }
}

} // verus!
