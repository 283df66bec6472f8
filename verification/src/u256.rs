//! An unsigned 256-bit integer held as four 64-bit limbs, least significant
//! first. Transaction values and gas parameters are carried in this type;
//! contracts speak of the mathematical value `as_nat`.

use vstd::prelude::*;

verus! {

/// A 256-bit unsigned integer: `limb0` is least significant.
#[derive(Clone, Copy, PartialEq, Eq, Structural, Debug)]
pub struct Uint256 {
    pub limb0: u64,
    pub limb1: u64,
    pub limb2: u64,
    pub limb3: u64,
}

impl Uint256 {
    /// The mathematical value of the four limbs.
    pub open spec fn as_nat(self) -> nat {
        (self.limb0
            + self.limb1 * 0x1_0000_0000_0000_0000
            + self.limb2 * 0x1_0000_0000_0000_0000_0000_0000_0000_0000
            + self.limb3 * 0x1_0000_0000_0000_0000_0000_0000_0000_0000_0000_0000_0000_0000) as nat
    }

    /// The zero value.
    pub fn zero() -> (r: Uint256)
        ensures
            r.as_nat() == 0,
    {
        Uint256 { limb0: 0, limb1: 0, limb2: 0, limb3: 0 }
    }

    /// Embeds a 64-bit value.
    pub fn from_u64(v: u64) -> (r: Uint256)
        ensures
            r.as_nat() == v,
    {
        Uint256 { limb0: v, limb1: 0, limb2: 0, limb3: 0 }
    }

    /// Strict order on the mathematical values, decided limb by limb from the
    /// most significant end.
    pub fn lt(&self, other: &Uint256) -> (r: bool)
        ensures
            r == (self.as_nat() < other.as_nat()),
    {
        if self.limb3 != other.limb3 {
            self.limb3 < other.limb3
        } else if self.limb2 != other.limb2 {
            self.limb2 < other.limb2
        } else if self.limb1 != other.limb1 {
            self.limb1 < other.limb1
        } else {
            self.limb0 < other.limb0
        }
    }

    /// Strict order, the other way round.
    pub fn gt(&self, other: &Uint256) -> (r: bool)
        ensures
            r == (self.as_nat() > other.as_nat()),
    {
        other.lt(self)
    }
}

} // verus!
