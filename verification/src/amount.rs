//! A 256-bit unsigned integer, carried as two 128-bit limbs.
//!
//! Token amounts on the wire are 256-bit unsigned integers. The type is
//! unsigned by construction: both limbs are unsigned machine integers, so no
//! negative amount can ever be built, and its mathematical value is the
//! non-negative `value()` below.

use vstd::prelude::*;

verus! {

/// A 256-bit unsigned integer: `value = lo + hi * 2^128`.
#[derive(Clone, Copy, Debug, PartialEq, Eq, Structural)]
pub struct Uint256 {
    /// Least-significant 128 bits.
    pub lo: u128,
    /// Most-significant 128 bits.
    pub hi: u128,
}

impl Uint256 {
    /// The mathematical value this amount stands for.
    pub open spec fn value(self) -> nat {
        (self.lo + self.hi * 0x100000000000000000000000000000000nat) as nat
    }

    /// Builds an amount from its two 128-bit limbs.
    pub fn new(lo: u128, hi: u128) -> (r: Uint256)
        ensures
            r.value() == lo + hi * 0x100000000000000000000000000000000nat,
            r.lo == lo,
            r.hi == hi,
    {
        Uint256 { lo, hi }
    }

    /// Builds an amount from a 128-bit value.
    pub fn from_u128(v: u128) -> (r: Uint256)
        ensures
            r.value() == v,
    {
        Uint256 { lo: v, hi: 0 }
    }

    /// Two amounts are equal exactly when they stand for the same value.
    pub proof fn lemma_value_injective(a: Uint256, b: Uint256)
        ensures
            (a.value() == b.value()) <==> (a == b),
    {
        if a.value() == b.value() {
            assert(a.lo == b.lo && a.hi == b.hi) by (nonlinear_arith)
                requires
                    a.lo + a.hi * 0x100000000000000000000000000000000nat == b.lo
                        + b.hi * 0x100000000000000000000000000000000nat,
                    a.lo <= u128::MAX,
                    b.lo <= u128::MAX,
            ;
        }
    }
}

} // verus!
