use vstd::prelude::*;

verus! {

/// Nanoseconds in one second.
pub const NANOS_PER_SEC: u32 = 1_000_000_000;

/// Nanoseconds in one millisecond.
pub const NANOS_PER_MILLI: u32 = 1_000_000;

/// A length of time: whole seconds plus a fraction below one second.
#[derive(Clone, Copy, Debug, PartialEq, Eq)]
pub struct Span {
    pub secs: u64,
    pub nanos: u32,
}

impl Span {
    /// The sub-second part is below one second.
    pub open spec fn wf(self) -> bool {
        self.nanos < NANOS_PER_SEC
    }

    /// The whole length in nanoseconds.
    pub open spec fn total_nanos(self) -> nat {
        self.secs as nat * NANOS_PER_SEC as nat + self.nanos as nat
    }

    /// A span of `secs` seconds and `nanos` nanoseconds.
    pub fn new(secs: u64, nanos: u32) -> (r: Span)
        requires
            nanos < NANOS_PER_SEC,
        ensures
            r.wf(),
            r.secs == secs,
            r.nanos == nanos,
            r.total_nanos() == secs as nat * NANOS_PER_SEC as nat + nanos as nat,
    {
        Span { secs, nanos }
    }

    /// A span of `ms` milliseconds.
    pub fn from_millis(ms: u64) -> (r: Span)
        ensures
            r.wf(),
            r.total_nanos() == ms as nat * NANOS_PER_MILLI as nat,
    {
        let secs: u64 = ms / 1000;
        let rem: u64 = ms % 1000;
        let nanos: u32 = (rem as u32) * NANOS_PER_MILLI;
        proof {
            assert(ms == secs * 1000 + rem);
            assert(secs as nat * NANOS_PER_SEC as nat + nanos as nat == ms as nat * NANOS_PER_MILLI as nat)
                by (nonlinear_arith)
                requires
                    ms == secs * 1000 + rem,
                    nanos == rem * 1_000_000,
            ;
        }
        Span { secs, nanos }
    }
}

} // verus!
