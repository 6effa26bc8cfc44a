//! Counter arithmetic shared by all monitors.
//!
//! Hardware counters are free-running values of 32, 36 or 48 bits; the
//! difference of two samples is taken modulo the counter's width so that a
//! wrapped counter still yields the true increment.

use vstd::prelude::*;

verus! {

/// The increment of a counter of modulus `modulus` (that is, `2^W` for a
/// `W`-bit counter) between samples `prev` and `cur`, both already reduced
/// below the modulus: `(cur - prev) mod modulus`.
pub fn counter_delta(cur: u64, prev: u64, modulus: u64) -> (delta: u64)
    requires
        modulus > 0,
        cur < modulus,
        prev < modulus,
    ensures
        delta == (cur - prev) % (modulus as int),
        delta < modulus,
{
    if cur >= prev {
        proof {
            vstd::arithmetic::div_mod::lemma_small_mod((cur - prev) as nat, modulus as nat);
        }
        cur - prev
    } else {
        let d = modulus - prev + cur;
        proof {
            assert((cur - prev) % (modulus as int) == cur - prev + modulus) by {
                vstd::arithmetic::div_mod::lemma_small_mod(
                    (cur - prev + modulus) as nat,
                    modulus as nat,
                );
                vstd::arithmetic::div_mod::lemma_mod_add_multiples_vanish(
                    cur - prev,
                    modulus as int,
                );
            }
        }
        d
    }
}

/// The product of two 64-bit values, computed without overflow.
pub fn wide_product(a: u64, b: u64) -> (r: u128)
    ensures
        r == a * b,
{
    proof {
        vstd::arithmetic::mul::lemma_mul_upper_bound(
            a as int,
            u64::MAX as int,
            b as int,
            u64::MAX as int,
        );
    }
    (a as u128) * (b as u128)
}

} // verus!
