//! Exact non-negative rational values.
//!
//! Derived metrics (bandwidths, latencies, hit rates, occupancy ratios,
//! frequencies) are quotients of counter deltas and elapsed times. They are
//! kept as exact numerator/denominator pairs so that every derivation can be
//! stated and checked precisely; conversion to floating point happens only at
//! the publication boundary, outside this library.
//!
//! A value with a zero denominator is never constructed: quantities whose
//! mathematical denominator would be zero are defined to be zero.

use vstd::prelude::*;

verus! {

/// An exact non-negative rational number `num / den`, with `den > 0`.
#[derive(Debug, Clone, Copy, PartialEq, Eq, Structural)]
pub struct Ratio {
    pub num: u128,
    pub den: u128,
}

impl Ratio {
    /// Well-formed: the denominator is positive.
    pub open spec fn wf(self) -> bool {
        self.den > 0
    }

    /// The value is exactly zero.
    pub open spec fn is_zero(self) -> bool {
        self.num == 0
    }

    /// The value is exactly one.
    pub open spec fn is_one(self) -> bool {
        self.num == self.den
    }

    /// The value is at most one.
    pub open spec fn le_one(self) -> bool {
        self.num <= self.den
    }

    /// The rational zero, in canonical form.
    pub fn zero() -> (r: Ratio)
        ensures
            r.wf(),
            r.is_zero(),
            r.num == 0,
            r.den == 1,
    {
        Ratio { num: 0, den: 1 }
    }

    /// An exact quotient of two machine words; zero when the denominator is zero.
    pub fn of(num: u64, den: u64) -> (r: Ratio)
        ensures
            r.wf(),
            den > 0 ==> r.num == num && r.den == den,
            den == 0 ==> r.is_zero(),
    {
        if den == 0 {
            Ratio { num: 0, den: 1 }
        } else {
            Ratio { num: num as u128, den: den as u128 }
        }
    }
}

} // verus!
