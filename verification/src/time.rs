//! A span of time: whole seconds and nanoseconds, as the widgets' timers use it.
use vstd::prelude::*;

verus! {

/// Nanoseconds in a second.
pub const NANOS_PER_SEC: u32 = 1_000_000_000;

/// A span of time.
#[derive(Debug, Clone, Copy, PartialEq, Eq, Structural)]
pub struct Duration {
    secs: u64,
    nanos: u32,
}

/// The longest span: `u64::MAX` seconds and 999 999 999 nanoseconds.
pub open spec fn max_nanos() -> nat {
    u64::MAX as nat * 1_000_000_000 + 999_999_999
}

impl Duration {
    #[verifier::type_invariant]
    closed spec fn inv(&self) -> bool {
        self.nanos < NANOS_PER_SEC
    }

    /// The span in nanoseconds.
    pub closed spec fn spec_nanos(&self) -> nat {
        self.secs as nat * 1_000_000_000 + self.nanos as nat
    }

    /// A span of `secs` seconds and `nanos` nanoseconds, the nanoseconds carried into
    /// seconds.
    pub fn new(secs: u64, nanos: u32) -> (d: Duration)
        requires
            secs as nat + nanos as nat / 1_000_000_000 <= u64::MAX,
        ensures
            d.spec_nanos() == secs as nat * 1_000_000_000 + nanos as nat,
    {
        let extra = (nanos / NANOS_PER_SEC) as u64;
        Duration { secs: secs + extra, nanos: nanos % NANOS_PER_SEC }
    }

    /// The empty span.
    pub fn zero() -> (d: Duration)
        ensures
            d.spec_nanos() == 0,
    {
        Duration { secs: 0, nanos: 0 }
    }

    /// A span of whole seconds.
    pub fn from_secs(secs: u64) -> (d: Duration)
        ensures
            d.spec_nanos() == secs as nat * 1_000_000_000,
    {
        Duration { secs, nanos: 0 }
    }

    /// A span of milliseconds.
    pub fn from_millis(millis: u64) -> (d: Duration)
        ensures
            d.spec_nanos() == millis as nat * 1_000_000,
    {
        let secs = millis / 1000;
        let rem = (millis % 1000) as u32;
        Duration { secs, nanos: rem * 1_000_000 }
    }

    /// A span of nanoseconds.
    pub fn from_nanos(nanos: u64) -> (d: Duration)
        ensures
            d.spec_nanos() == nanos as nat,
    {
        let secs = nanos / 1_000_000_000;
        let rem = (nanos % 1_000_000_000) as u32;
        Duration { secs, nanos: rem }
    }

    /// Whole seconds.
    pub fn as_secs(&self) -> (s: u64)
        ensures
            s == self.spec_nanos() / 1_000_000_000,
    {
        proof { use_type_invariant(self); }
        self.secs
    }

    /// Nanoseconds past the whole seconds.
    pub fn subsec_nanos(&self) -> (n: u32)
        ensures
            n == self.spec_nanos() % 1_000_000_000,
    {
        proof { use_type_invariant(self); }
        self.nanos
    }

    /// The span in nanoseconds.
    pub fn as_nanos(&self) -> (n: u128)
        ensures
            n == self.spec_nanos(),
    {
        (self.secs as u128) * 1_000_000_000 + (self.nanos as u128)
    }

    /// The sum of two spans, or the longest span when the sum does not fit.
    pub fn saturating_add(&self, other: Duration) -> (d: Duration)
        ensures
            d.spec_nanos() == if self.spec_nanos() + other.spec_nanos() <= max_nanos() {
                self.spec_nanos() + other.spec_nanos()
            } else {
                max_nanos()
            },
    {
        proof {
            use_type_invariant(self);
            use_type_invariant(&other);
        }
        let nanos = self.nanos + other.nanos;
        let (carry, nanos) = if nanos >= NANOS_PER_SEC { (1u64, nanos - NANOS_PER_SEC) } else { (0u64, nanos) };
        let total: u128 = self.secs as u128 + other.secs as u128 + carry as u128;
        if total > u64::MAX as u128 {
            Duration { secs: u64::MAX, nanos: NANOS_PER_SEC - 1 }
        } else {
            Duration { secs: total as u64, nanos }
        }
    }
}

} // verus!
