//! A span of time with nanosecond precision, as std's `Duration` counts it.
use vstd::prelude::*;

verus! {

/// Nanoseconds in a second.
pub const NANOS_PER_SEC: u128 = 1_000_000_000;

/// Nanoseconds in a millisecond.
pub const NANOS_PER_MILLI: u128 = 1_000_000;

/// The longest span a duration holds: `u64::MAX` seconds and 999 999 999 nanoseconds.
pub open spec fn max_nanos() -> nat {
    (u64::MAX as nat) * 1_000_000_000 + 999_999_999
}

/// A span of time. It orders and compares by its length.
#[derive(Debug, Clone, Copy, PartialEq, Eq, PartialOrd, Ord, Hash, Structural)]
pub struct Duration {
    nanos: u128,
}

impl Duration {
    #[verifier::type_invariant]
    spec fn within_range(self) -> bool {
        self.nanos <= max_nanos()
    }
}

impl View for Duration {
    type V = nat;

    /// The length in nanoseconds.
    closed spec fn view(&self) -> nat {
        self.nanos as nat
    }
}

impl Duration {
    /// The span of length zero.
    pub fn zero() -> (r: Duration)
        ensures
            r@ == 0,
    {
        Duration { nanos: 0 }
    }

    /// A span of `secs` seconds.
    pub fn from_secs(secs: u64) -> (r: Duration)
        ensures
            r@ == secs as nat * 1_000_000_000,
    {
        Duration { nanos: secs as u128 * NANOS_PER_SEC }
    }

    /// A span of `millis` milliseconds.
    pub fn from_millis(millis: u64) -> (r: Duration)
        ensures
            r@ == millis as nat * 1_000_000,
    {
        assert(millis as nat * 1_000_000 <= max_nanos());
        Duration { nanos: millis as u128 * NANOS_PER_MILLI }
    }

    /// The length in nanoseconds.
    pub fn as_nanos(&self) -> (r: u128)
        ensures
            r == self@,
    {
        self.nanos
    }

    /// Whole milliseconds in this span (rounded down).
    pub fn as_millis(&self) -> (r: u128)
        ensures
            r == self@ / 1_000_000,
    {
        self.nanos / NANOS_PER_MILLI
    }

    /// Whether the span is empty.
    pub fn is_zero(&self) -> (r: bool)
        ensures
            r == (self@ == 0),
    {
        self.nanos == 0
    }

    /// `self * rhs`, or `None` when the product is longer than a duration holds.
    pub fn checked_mul(&self, rhs: u32) -> (r: Option<Duration>)
        ensures
            match r {
                Some(d) => d@ == self@ * rhs && d@ <= max_nanos(),
                None => self@ * rhs > max_nanos(),
            },
    {
        proof {
            use_type_invariant(*self);
            assert(self.nanos * rhs <= max_nanos() * 4294967295) by (nonlinear_arith)
                requires
                    self.nanos <= max_nanos(),
                    rhs <= 4294967295,
            {}
        }
        let product: u128 = self.nanos * rhs as u128;
        if product > 18_446_744_073_709_551_615_999_999_999u128 {
            None
        } else {
            Some(Duration { nanos: product })
        }
    }

    /// The shorter of two spans (both, like every duration, at most
    /// [`max_nanos`] long).
    pub fn shorter(a: Duration, b: Duration) -> (r: Duration)
        ensures
            r@ == if a@ <= b@ { a@ } else { b@ },
            a@ <= max_nanos(),
            b@ <= max_nanos(),
    {
        proof {
            use_type_invariant(a);
            use_type_invariant(b);
        }
        if a.nanos <= b.nanos { a } else { b }
    }
}

} // verus!
