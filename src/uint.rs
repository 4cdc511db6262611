//! A 256-bit unsigned integer held as four little-endian 64-bit limbs.
use vstd::prelude::*;

verus! {

/// 2^64, the weight of one limb over the one below it.
pub open spec fn limb_base() -> nat {
    0x1_0000_0000_0000_0000nat
}

/// The number that four little-endian limbs stand for.
pub open spec fn limbs_value(l: [u64; 4]) -> nat {
    (l[0] as nat) + limb_base() * ((l[1] as nat) + limb_base() * ((l[2] as nat) + limb_base()
        * (l[3] as nat)))
}

/// An unsigned 256-bit integer, such as an amount of wei.
#[derive(Clone, Copy, Debug, PartialEq, Eq)]
pub struct Uint256 {
    /// Least significant limb first.
    pub limbs: [u64; 4],
}

impl Uint256 {
    /// The number this value stands for.
    pub open spec fn value(&self) -> nat {
        limbs_value(self.limbs)
    }

    /// The value with the given limbs, least significant first.
    pub fn from_limbs(limbs: [u64; 4]) -> (r: Uint256)
        ensures
            r.limbs == limbs,
            r.value() == limbs_value(limbs),
    {
        Uint256 { limbs }
    }

    /// The value of a 64-bit integer.
    pub fn from_u64(x: u64) -> (r: Uint256)
        ensures
            r.value() == x,
    {
        Uint256 { limbs: [x, 0, 0, 0] }
    }

    /// The limbs of the value, least significant first.
    pub fn into_limbs(self) -> (r: [u64; 4])
        ensures
            r == self.limbs,
    {
        self.limbs
    }
}

/// Relies on ruint's `Uint::from_limbs`, `Uint::from` and `/` on
/// `alloy::primitives::U256`: division rounding down, whose limbs come out
/// least significant first.
#[verifier::external_body]
pub(crate) fn div_by_count(v: Uint256, d: usize) -> (r: Uint256)
    requires
        d > 0,
    ensures
        r.value() == v.value() / (d as nat),
{
    let q = alloy::primitives::U256::from_limbs(v.limbs) / alloy::primitives::U256::from(d);
    Uint256 { limbs: q.into_limbs() }
}

} // verus!
