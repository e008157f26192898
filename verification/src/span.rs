//! Lengths of time, counted in nanoseconds.
use vstd::prelude::*;

verus! {

/// Nanoseconds in a second.
pub const NANOS_PER_SEC: u64 = 1_000_000_000;

/// The longest span, in nanoseconds: `u64::MAX` seconds and 999 999 999
/// nanoseconds.
pub open spec fn max_span() -> nat {
    ((u64::MAX as nat + 1) * NANOS_PER_SEC as nat - 1) as nat
}

/// A length of time of whole seconds and a fraction of a second.
///
/// Its view is its length in nanoseconds.
#[derive(Clone, Copy, Debug, PartialEq, Eq, Structural)]
pub struct Span {
    secs: u64,
    nanos: u32,
}

impl View for Span {
    type V = nat;

    closed spec fn view(&self) -> nat {
        self.secs as nat * NANOS_PER_SEC as nat + self.nanos as nat
    }
}

impl Span {
    #[verifier::type_invariant]
    spec fn fraction_below_one_second(self) -> bool {
        self.nanos < NANOS_PER_SEC
    }

    /// A span of `secs` seconds and `nanos` nanoseconds.
    pub fn new(secs: u64, nanos: u32) -> (r: Self)
        requires
            nanos < NANOS_PER_SEC,
        ensures
            r@ == secs as nat * NANOS_PER_SEC as nat + nanos as nat,
    {
        Span { secs, nanos }
    }

    /// A span of whole seconds.
    pub fn from_secs(secs: u64) -> (r: Self)
        ensures
            r@ == secs as nat * NANOS_PER_SEC as nat,
    {
        Span { secs, nanos: 0 }
    }

    /// A span of whole milliseconds.
    pub fn from_millis(millis: u64) -> (r: Self)
        ensures
            r@ == millis as nat * 1_000_000,
    {
        Span { secs: millis / 1_000, nanos: (millis % 1_000) as u32 * 1_000_000 }
    }

    /// A span of whole microseconds.
    pub fn from_micros(micros: u64) -> (r: Self)
        ensures
            r@ == micros as nat * 1_000,
    {
        Span { secs: micros / 1_000_000, nanos: (micros % 1_000_000) as u32 * 1_000 }
    }

    /// The whole seconds of the span.
    pub fn as_secs(&self) -> (r: u64)
        ensures
            r == self@ / NANOS_PER_SEC as nat,
    {
        proof {
            use_type_invariant(&*self);
        }
        self.secs
    }

    /// The nanoseconds of the span beyond its whole seconds.
    pub fn subsec_nanos(&self) -> (r: u32)
        ensures
            r == self@ % NANOS_PER_SEC as nat,
            r < NANOS_PER_SEC,
    {
        proof {
            use_type_invariant(&*self);
        }
        self.nanos
    }

    /// The length of the span in nanoseconds.
    pub fn as_nanos(&self) -> (r: u128)
        ensures
            r == self@,
            r <= max_span(),
    {
        proof {
            use_type_invariant(&*self);
            assert(self.secs * NANOS_PER_SEC <= u64::MAX * NANOS_PER_SEC);
        }
        self.secs as u128 * NANOS_PER_SEC as u128 + self.nanos as u128
    }
}

/// A second has a thousand million nanoseconds, and the longest span is one
/// nanosecond short of two to the 64th seconds.
pub proof fn law_units()
    ensures
        NANOS_PER_SEC == 1_000_000_000,
        max_span() + 1 == 0x1_0000_0000_0000_0000 * 1_000_000_000,
{
}

} // verus!
