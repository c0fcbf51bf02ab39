//! 256-bit words, field elements and their range checks.
//!
//! The proof system works over a pairing-friendly curve whose scalar field
//! and base field both have 254-bit prime moduli.  A word is stored as four
//! 64-bit limbs, least significant first.  Every state component that the
//! protocol range-checks is a scalar-field element; curve point coordinates
//! are base-field elements; commitment digests are arbitrary 256-bit words.

use vstd::prelude::*;

verus! {

/// Limbs of the scalar-field modulus, least significant first.
pub const SCALAR_MODULUS_LIMB_0: u64 = 0x43E1F593F0000001;
pub const SCALAR_MODULUS_LIMB_1: u64 = 0x2833E84879B97091;
pub const SCALAR_MODULUS_LIMB_2: u64 = 0xB85045B68181585D;
pub const SCALAR_MODULUS_LIMB_3: u64 = 0x30644E72E131A029;

/// Limbs of the base-field modulus, least significant first.
pub const BASE_MODULUS_LIMB_0: u64 = 0x3C208C16D87CFD47;
pub const BASE_MODULUS_LIMB_1: u64 = 0x97816A916871CA8D;
pub const BASE_MODULUS_LIMB_2: u64 = 0xB85045B68181585D;
pub const BASE_MODULUS_LIMB_3: u64 = 0x30644E72E131A029;

/// Clearing the top three bits of a word brings it below both moduli.
pub const SCALAR_TOP_MASK: u64 = 0x1FFF_FFFF_FFFF_FFFF;

/// A 256-bit word: four 64-bit limbs, least significant first.
#[derive(Clone, Copy, PartialEq, Eq, Structural, Debug)]
pub struct U256 {
    pub limb0: u64,
    pub limb1: u64,
    pub limb2: u64,
    pub limb3: u64,
}

/// The scalar-field modulus as a mathematical integer.
pub open spec fn scalar_modulus() -> nat {
    (U256 {
        limb0: SCALAR_MODULUS_LIMB_0,
        limb1: SCALAR_MODULUS_LIMB_1,
        limb2: SCALAR_MODULUS_LIMB_2,
        limb3: SCALAR_MODULUS_LIMB_3,
    }).as_nat()
}

/// The embedding of a 64-bit integer as a 256-bit word.
pub open spec fn spec_word_from_u64(v: u64) -> U256 {
    U256 { limb0: v, limb1: 0, limb2: 0, limb3: 0 }
}

/// The limbs of a word, least significant first: the order in which a
/// word is absorbed by the digest.
pub open spec fn spec_word_limbs(w: U256) -> Seq<u64> {
    seq![w.limb0, w.limb1, w.limb2, w.limb3]
}

/// The base-field modulus as a mathematical integer.
pub open spec fn base_modulus() -> nat {
    (U256 {
        limb0: BASE_MODULUS_LIMB_0,
        limb1: BASE_MODULUS_LIMB_1,
        limb2: BASE_MODULUS_LIMB_2,
        limb3: BASE_MODULUS_LIMB_3,
    }).as_nat()
}

impl U256 {
    /// The value of the word as a mathematical integer.
    pub open spec fn as_nat(self) -> nat {
        self.limb0 as nat
            + self.limb1 as nat * 0x1_0000_0000_0000_0000
            + self.limb2 as nat * 0x1_0000_0000_0000_0000_0000_0000_0000_0000
            + self.limb3 as nat
                * 0x1_0000_0000_0000_0000_0000_0000_0000_0000_0000_0000_0000_0000
    }

    /// Whether the word is a canonical scalar-field element.
    pub open spec fn is_scalar(self) -> bool {
        self.as_nat() < scalar_modulus()
    }

    /// Whether the word is a canonical base-field element.
    pub open spec fn is_base(self) -> bool {
        self.as_nat() < base_modulus()
    }

    /// The all-zero word.
    pub fn zero() -> (r: U256)
        ensures
            r.as_nat() == 0,
            r == (U256 { limb0: 0, limb1: 0, limb2: 0, limb3: 0 }),
    {
        U256 { limb0: 0, limb1: 0, limb2: 0, limb3: 0 }
    }

    /// Embeds a 64-bit integer; the result is always in both fields.
    pub fn from_u64(v: u64) -> (r: U256)
        ensures
            r.as_nat() == v,
            r.is_scalar(),
            r.is_base(),
            r == spec_word_from_u64(v),
    {
        U256 { limb0: v, limb1: 0, limb2: 0, limb3: 0 }
    }

    /// Appends the limbs of the word to `out`, least significant first.
    pub fn push_limbs(&self, out: &mut Vec<u64>)
        ensures
            final(out)@ == old(out)@ + spec_word_limbs(*self),
    {
        out.push(self.limb0);
        out.push(self.limb1);
        out.push(self.limb2);
        out.push(self.limb3);
        proof {
            assert(out@ =~= old(out)@ + spec_word_limbs(*self));
        }
    }

    /// Numeric comparison, most significant limb first.
    pub fn lt(&self, other: &U256) -> (r: bool)
        ensures
            r == (self.as_nat() < other.as_nat()),
    {
        if self.limb3 != other.limb3 {
            self.limb3 < other.limb3
        } else if self.limb2 != other.limb2 {
            self.limb2 < other.limb2
        } else if self.limb1 != other.limb1 {
            self.limb1 < other.limb1
        } else {
            self.limb0 < other.limb0
        }
    }

    /// Range check against the scalar-field modulus.
    pub fn check_scalar(&self) -> (r: bool)
        ensures
            r == self.is_scalar(),
    {
        self.lt(
            &U256 {
                limb0: SCALAR_MODULUS_LIMB_0,
                limb1: SCALAR_MODULUS_LIMB_1,
                limb2: SCALAR_MODULUS_LIMB_2,
                limb3: SCALAR_MODULUS_LIMB_3,
            },
        )
    }

    /// Clears the top three bits, so the result is a canonical element
    /// of both fields.
    pub fn mask_scalar(&self) -> (r: U256)
        ensures
            r == spec_mask_scalar(*self),
            r.is_scalar(),
            r.is_base(),
    {
        proof {
            lemma_masked_is_scalar(*self);
        }
        U256 {
            limb0: self.limb0,
            limb1: self.limb1,
            limb2: self.limb2,
            limb3: self.limb3 & SCALAR_TOP_MASK,
        }
    }

    /// Range check against the base-field modulus.
    pub fn check_base(&self) -> (r: bool)
        ensures
            r == self.is_base(),
    {
        self.lt(
            &U256 {
                limb0: BASE_MODULUS_LIMB_0,
                limb1: BASE_MODULUS_LIMB_1,
                limb2: BASE_MODULUS_LIMB_2,
                limb3: BASE_MODULUS_LIMB_3,
            },
        )
    }
}

/// A word with the top three bits cleared.
pub open spec fn spec_mask_scalar(w: U256) -> U256 {
    U256 { limb0: w.limb0, limb1: w.limb1, limb2: w.limb2, limb3: w.limb3 & SCALAR_TOP_MASK }
}

/// Masking yields a canonical element of both fields.
pub proof fn lemma_masked_is_scalar(w: U256)
    ensures
        spec_mask_scalar(w).is_scalar(),
        spec_mask_scalar(w).is_base(),
{
    let t = w.limb3;
    assert(t & 0x1FFF_FFFF_FFFF_FFFFu64 <= 0x1FFF_FFFF_FFFF_FFFFu64) by (bit_vector);
}

} // verus!
