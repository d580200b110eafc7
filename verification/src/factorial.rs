//! The factorial operation.
//!
//! The engine computes `n!` on unsigned 64-bit integers with no overflow
//! guard: past the last factorial that fits (`20!`), the product silently
//! wraps modulo 2^64.  That wrapping is documented behaviour, so the
//! contract states the result exactly as the factorial reduced modulo 2^64.
//! Rejecting negative or non-integral operands is the caller's duty, decided
//! by [`crate::domain::domain_check`] before this function is reached.

use vstd::prelude::*;

use vstd::arithmetic::div_mod::lemma_mul_mod_noop_left;
use vstd::arithmetic::mul::lemma_mul_is_commutative;

verus! {

/// The mathematical factorial.
pub open spec fn fact(n: nat) -> nat
    decreases n,
{
    if n == 0 {
        1
    } else {
        n * fact((n - 1) as nat)
    }
}

/// Computes `n!` with wrapping 64-bit multiplication: the result is the
/// factorial reduced modulo 2^64, which is `n!` itself for every `n` whose
/// factorial fits.
pub fn factorial(n: u64) -> (r: u64)
    ensures
        r as nat == fact(n as nat) % 0x1_0000_0000_0000_0000,
{
    let mut acc: u64 = 1;
    let mut i: u64 = 0;
    while i < n
        invariant
            i <= n,
            acc as nat == fact(i as nat) % 0x1_0000_0000_0000_0000,
        decreases n - i,
    {
        i = i + 1;
        let ghost prev = acc as nat;
        acc = acc.wrapping_mul(i);
        proof {
            let m: int = 0x1_0000_0000_0000_0000;
            assert(fact(i as nat) == (i as nat) * fact((i - 1) as nat));
            lemma_mul_mod_noop_left(fact((i - 1) as nat) as int, i as int, m);
            lemma_mul_is_commutative(fact((i - 1) as nat) as int, i as int);
        }
    }
    acc
}

} // verus!
