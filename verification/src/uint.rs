//! Unsigned 256-bit integers, as far as nonces need them.

use vstd::prelude::*;

verus! {

/// An unsigned 256-bit integer, held as four 64-bit limbs with the least
/// significant limb first.
#[derive(Clone, Copy, Debug, PartialEq, Eq, Hash)]
pub struct U256(pub [u64; 4]);

/// The number that four limbs stand for, least significant limb first.
pub open spec fn limbs_value(limbs: Seq<u64>) -> nat
    recommends
        limbs.len() == 4,
{
    (limbs[0] as nat) + (limbs[1] as nat) * 0x1_0000_0000_0000_0000nat + (limbs[2] as nat)
        * 0x1_0000_0000_0000_0000_0000_0000_0000_0000nat + (limbs[3] as nat)
        * 0x1_0000_0000_0000_0000_0000_0000_0000_0000_0000_0000_0000_0000nat
}

/// The least number that no `U256` reaches: two to the power 256.
pub open spec fn modulus() -> nat {
    0x1_0000_0000_0000_0000_0000_0000_0000_0000_0000_0000_0000_0000_0000_0000_0000_0000nat
}

impl View for U256 {
    type V = nat;

    open spec fn view(&self) -> nat {
        limbs_value(self.0@)
    }
}

impl U256 {
    /// The number zero.
    pub fn zero() -> (z: U256)
        ensures
            z@ == 0,
    {
        U256([0, 0, 0, 0])
    }

    /// The number `n`, widened to 256 bits.
    pub fn from_u64(n: u64) -> (wide: U256)
        ensures
            wide@ == n,
    {
        U256([n, 0, 0, 0])
    }

    /// Every value lies below two to the power 256.
    pub proof fn lemma_in_range(self)
        ensures
            self@ < modulus(),
    {
    }

    /// The limbs are determined by the number they stand for.
    pub proof fn lemma_value_injective(self, other: U256)
        requires
            self@ == other@,
        ensures
            self == other,
    {
        let a = self.0@;
        let b = other.0@;
        let a_high = (a[2] as nat) + (a[3] as nat) * 0x1_0000_0000_0000_0000nat;
        let b_high = (b[2] as nat) + (b[3] as nat) * 0x1_0000_0000_0000_0000nat;
        let a_rest = (a[1] as nat) + a_high * 0x1_0000_0000_0000_0000nat;
        let b_rest = (b[1] as nat) + b_high * 0x1_0000_0000_0000_0000nat;
        lemma_limb_split(a[0] as nat, a_rest, b[0] as nat, b_rest);
        lemma_limb_split(a[1] as nat, a_high, b[1] as nat, b_high);
        lemma_limb_split(a[2] as nat, a[3] as nat, b[2] as nat, b[3] as nat);
        assert(self.0 =~= other.0);
    }
}

/// A number splits in one way only into a limb and what stands above it.
proof fn lemma_limb_split(low: nat, high: nat, other_low: nat, other_high: nat)
    requires
        low < 0x1_0000_0000_0000_0000nat,
        other_low < 0x1_0000_0000_0000_0000nat,
        low + high * 0x1_0000_0000_0000_0000nat == other_low + other_high
            * 0x1_0000_0000_0000_0000nat,
    ensures
        low == other_low,
        high == other_high,
{
    if high < other_high {
        assert(high + 1 <= other_high);
    } else if other_high < high {
        assert(other_high + 1 <= high);
    }
}

} // verus!
