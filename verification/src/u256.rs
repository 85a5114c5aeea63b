//! An unsigned 256-bit integer type for token balances.

use vstd::prelude::*;

verus! {

/// An unsigned 256-bit integer, stored as four 64-bit limbs in little-endian
/// order (`limb0` is the least significant). Token balances are 256-bit
/// quantities; this type carries them as plain machine words so that their
/// mathematical value can stand in contracts.
#[derive(Clone, Copy, Debug, PartialEq, Eq, Structural)]
pub struct U256 {
    pub limb0: u64,
    pub limb1: u64,
    pub limb2: u64,
    pub limb3: u64,
}

impl View for U256 {
    type V = nat;

    open spec fn view(&self) -> nat {
        self.limb0 as nat
            + self.limb1 as nat * 0x1_0000_0000_0000_0000
            + self.limb2 as nat * 0x1_0000_0000_0000_0000_0000_0000_0000_0000
            + self.limb3 as nat
                * 0x1_0000_0000_0000_0000_0000_0000_0000_0000_0000_0000_0000_0000
    }
}

impl U256 {
    /// The zero balance.
    pub fn zero() -> (r: U256)
        ensures
            r@ == 0,
    {
        U256 { limb0: 0, limb1: 0, limb2: 0, limb3: 0 }
    }

    /// A balance small enough to fit in one machine word.
    pub fn from_u64(value: u64) -> (r: U256)
        ensures
            r@ == value,
    {
        U256 { limb0: value, limb1: 0, limb2: 0, limb3: 0 }
    }

    /// A balance assembled from four little-endian 64-bit limbs.
    pub fn from_limbs(limb0: u64, limb1: u64, limb2: u64, limb3: u64) -> (r: U256)
        ensures
            r@ == limb0 as nat
                + limb1 as nat * 0x1_0000_0000_0000_0000
                + limb2 as nat * 0x1_0000_0000_0000_0000_0000_0000_0000_0000
                + limb3 as nat
                    * 0x1_0000_0000_0000_0000_0000_0000_0000_0000_0000_0000_0000_0000,
    {
        U256 { limb0, limb1, limb2, limb3 }
    }

    /// Whether the balance is exactly zero.
    pub fn is_zero(&self) -> (r: bool)
        ensures
            r == (self@ == 0),
    {
        self.limb0 == 0 && self.limb1 == 0 && self.limb2 == 0 && self.limb3 == 0
    }
}

} // verus!
