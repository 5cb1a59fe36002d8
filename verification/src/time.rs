//! Spans of time, to the nanosecond.

use vstd::prelude::*;

verus! {

pub const NANOS_PER_SEC: u32 = 1_000_000_000;

pub const NANOS_PER_MILLI: u32 = 1_000_000;

/// The longest span, in nanoseconds.
pub open spec fn max_span() -> nat {
    (u64::MAX * NANOS_PER_SEC + (NANOS_PER_SEC - 1)) as nat
}

/// A span of time. Its view is its length in nanoseconds.
#[derive(Clone, Copy, Debug, PartialEq, Eq)]
pub struct TimeSpan {
    secs: u64,
    nanos: u32,
}

impl View for TimeSpan {
    type V = nat;

    closed spec fn view(&self) -> nat {
        (self.secs * NANOS_PER_SEC + self.nanos) as nat
    }
}

impl TimeSpan {
    /// The part below one second is less than a second.
    #[verifier::type_invariant]
    spec fn normalized(self) -> bool {
        self.nanos < NANOS_PER_SEC
    }

    /// A span of whole seconds and a part below one second.
    pub fn new(secs: u64, subsec_nanos: u32) -> (span: TimeSpan)
        requires
            subsec_nanos < NANOS_PER_SEC,
        ensures
            span@ == secs * NANOS_PER_SEC + subsec_nanos,
    {
        TimeSpan { secs, nanos: subsec_nanos }
    }

    /// The empty span.
    pub fn zero() -> (span: TimeSpan)
        ensures
            span@ == 0,
    {
        TimeSpan { secs: 0, nanos: 0 }
    }

    pub fn from_secs(secs: u64) -> (span: TimeSpan)
        ensures
            span@ == secs * NANOS_PER_SEC,
    {
        TimeSpan { secs, nanos: 0 }
    }

    pub fn from_millis(millis: u64) -> (span: TimeSpan)
        ensures
            span@ == millis * NANOS_PER_MILLI,
    {
        let rest: u64 = millis % 1000;
        TimeSpan { secs: millis / 1000, nanos: (rest as u32) * NANOS_PER_MILLI }
    }

    /// The whole seconds.
    pub fn as_secs(&self) -> (secs: u64)
        ensures
            secs == self@ / (NANOS_PER_SEC as nat),
    {
        proof {
            use_type_invariant(self);
            assert((self.secs * NANOS_PER_SEC + self.nanos) / (NANOS_PER_SEC as int) == self.secs)
                by (nonlinear_arith)
                requires
                    self.nanos < NANOS_PER_SEC,
                    NANOS_PER_SEC == 1_000_000_000,
            ;
        }
        self.secs
    }

    /// The part below one second, in nanoseconds.
    pub fn subsec_nanos(&self) -> (nanos: u32)
        ensures
            nanos == self@ % (NANOS_PER_SEC as nat),
    {
        proof {
            use_type_invariant(self);
        }
        self.nanos
    }

    /// Whether twice the span is still a span.
    pub fn can_double(&self) -> (yes: bool)
        ensures
            yes == (2 * self@ <= max_span()),
    {
        proof {
            use_type_invariant(self);
        }
        self.secs < 0x8000_0000_0000_0000
    }

    /// Twice the span.
    pub fn doubled(self) -> (span: TimeSpan)
        requires
            2 * self@ <= max_span(),
        ensures
            span@ == 2 * self@,
    {
        proof {
            use_type_invariant(&self);
        }
        let nanos: u32 = self.nanos * 2;
        if nanos >= NANOS_PER_SEC {
            TimeSpan { secs: self.secs * 2 + 1, nanos: nanos - NANOS_PER_SEC }
        } else {
            TimeSpan { secs: self.secs * 2, nanos }
        }
    }

    /// Whether the span is longer than another one.
    pub fn exceeds(&self, other: &TimeSpan) -> (longer: bool)
        ensures
            longer == (self@ > other@),
    {
        proof {
            use_type_invariant(self);
            use_type_invariant(other);
        }
        self.secs > other.secs || (self.secs == other.secs && self.nanos > other.nanos)
    }
}

} // verus!
