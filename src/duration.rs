//! A span of time, as the service records carry it: whole seconds and a nanosecond remainder.
use vstd::prelude::*;

verus! {

/// Nanoseconds in one second.
pub const NANOS_PER_SEC: u32 = 1_000_000_000;

/// Nanoseconds in one millisecond.
pub const NANOS_PER_MILLI: u32 = 1_000_000;

/// A span of time with nanosecond precision.
#[derive(Debug, Clone, Copy, PartialEq, Eq, Hash)]
pub struct Duration {
    secs: u64,
    nanos: u32,
}

impl View for Duration {
    type V = nat;

    /// The span in nanoseconds.
    closed spec fn view(&self) -> nat {
        self.secs as nat * NANOS_PER_SEC as nat + self.nanos as nat
    }
}

impl Duration {
    /// The remainder is less than one second.
    #[verifier::type_invariant]
    spec fn well_formed(self) -> bool {
        self.nanos < NANOS_PER_SEC
    }

    /// A span of `secs` seconds.
    pub fn from_secs(secs: u64) -> (r: Duration)
        ensures
            r@ == secs as nat * NANOS_PER_SEC as nat,
    {
        Duration { secs, nanos: 0 }
    }

    /// A span of `millis` milliseconds.
    pub fn from_millis(millis: u64) -> (r: Duration)
        ensures
            r@ == millis as nat * NANOS_PER_MILLI as nat,
    {
        let secs = millis / 1000;
        let rest = (millis % 1000) as u32;
        assert(millis == secs * 1000 + rest);
        assert(rest * 1_000_000 < 1_000_000_000) by (nonlinear_arith)
            requires
                rest < 1000,
        ;
        let r = Duration { secs, nanos: rest * NANOS_PER_MILLI };
        assert(r@ == millis as nat * NANOS_PER_MILLI as nat) by (nonlinear_arith)
            requires
                r@ == secs as nat * 1_000_000_000 + rest * 1_000_000,
                millis == secs * 1000 + rest,
        ;
        r
    }

    /// The zero-length span.
    pub fn zero() -> (r: Duration)
        ensures
            r@ == 0,
    {
        Duration { secs: 0, nanos: 0 }
    }

    /// The whole seconds in this span.
    pub fn as_secs(&self) -> (r: u64)
        ensures
            r == self@ / NANOS_PER_SEC as nat,
    {
        proof {
            use_type_invariant(self);
            assert((self.secs as nat * 1_000_000_000 + self.nanos as nat) / 1_000_000_000
                == self.secs as nat) by (nonlinear_arith)
                requires
                    self.nanos < 1_000_000_000,
            ;
        }
        self.secs
    }

    /// The whole milliseconds in this span.
    pub fn as_millis(&self) -> (r: u128)
        ensures
            r == self@ / NANOS_PER_MILLI as nat,
    {
        proof {
            use_type_invariant(self);
        }
        let whole = self.secs as u128 * 1000;
        let part = (self.nanos / NANOS_PER_MILLI) as u128;
        proof {
            let s = self.secs as nat;
            let n = self.nanos as nat;
            assert((s * 1_000_000_000 + n) / 1_000_000 == s * 1000 + n / 1_000_000)
                by (nonlinear_arith)
                requires
                    n < 1_000_000_000,
            ;
        }
        whole + part
    }
}

impl Default for Duration {
    fn default() -> (r: Duration)
        ensures
            r@ == 0,
    {
        Duration::zero()
    }
}

} // verus!
