//! 256-bit unsigned integers: market request ids and token amounts.

use vstd::arithmetic::power2::pow2;
use vstd::prelude::*;

verus! {

/// A 256-bit unsigned integer, as four 64-bit limbs, the least significant first.
#[derive(Clone, Copy, Debug, PartialEq, Eq, Structural)]
pub struct U256 {
    pub limb0: u64,
    pub limb1: u64,
    pub limb2: u64,
    pub limb3: u64,
}

/// The weight of one limb above the one before it.
pub open spec fn limb_base() -> nat {
    0x1_0000_0000_0000_0000
}

impl View for U256 {
    type V = nat;

    /// The number that the limbs stand for.
    open spec fn view(&self) -> nat {
        self.limb0 as nat + limb_base() * (self.limb1 as nat + limb_base() * (self.limb2 as nat
            + limb_base() * self.limb3 as nat))
    }
}

/// Zero.
pub open spec fn u256_zero() -> U256 {
    U256 { limb0: 0, limb1: 0, limb2: 0, limb3: 0 }
}

/// Two integers with the same value are the same integer.
pub proof fn law_u256_value_is_unique(a: U256, b: U256)
    requires
        a@ == b@,
    ensures
        a == b,
{
}

/// `ruint::Uint::wrapping_mul`, which `*` stands for on the 256-bit integers of
/// `alloy_primitives`: the product modulo two to the power of 256.
#[verifier::external_body]
fn uint_wrapping_mul(a: U256, b: U256) -> (r: U256)
    ensures
        r@ == (a@ * b@) % pow2(256),
{
    let x = alloy_primitives::U256::from_limbs([a.limb0, a.limb1, a.limb2, a.limb3]);
    let y = alloy_primitives::U256::from_limbs([b.limb0, b.limb1, b.limb2, b.limb3]);
    let [limb0, limb1, limb2, limb3] = x.wrapping_mul(y).into_limbs();
    U256 { limb0, limb1, limb2, limb3 }
}

impl U256 {
    /// Zero.
    pub fn zero() -> (r: U256)
        ensures
            r == u256_zero(),
            r@ == 0,
    {
        U256 { limb0: 0, limb1: 0, limb2: 0, limb3: 0 }
    }

    /// The integer with the value of `n`.
    pub fn from_u64(n: u64) -> (r: U256)
        ensures
            r@ == n,
    {
        U256 { limb0: n, limb1: 0, limb2: 0, limb3: 0 }
    }

    /// The product of two integers modulo two to the power of 256.
    pub fn wrapping_mul(self, other: U256) -> (r: U256)
        ensures
            r@ == (self@ * other@) % pow2(256),
    {
        uint_wrapping_mul(self, other)
    }
}

} // verus!
