//! Proof objects and verifying keys.
//!
//! A proof is a fixed-arity structure, not an opaque blob: thirteen curve
//! points and ten scalar evaluations, in the exact order in which the
//! transcript absorbs them.  Keeping the arity in the type means shape
//! errors are impossible to build and range validation is field by field.

use vstd::prelude::*;
use crate::field::U256;

verus! {

/// The smallest supported evaluation-domain size.
pub const MIN_DOMAIN_SIZE: u64 = 0x400;

/// The largest supported evaluation-domain size.
pub const MAX_DOMAIN_SIZE: u64 = 0x10000000;

/// A point on the pairing-friendly curve, in affine coordinates over the
/// base field.
#[derive(Clone, Copy, PartialEq, Eq, Structural, Debug)]
pub struct G1Point {
    pub x: U256,
    pub y: U256,
}

impl G1Point {
    /// Both coordinates are canonical base-field elements.
    pub open spec fn coords_in_range(self) -> bool {
        self.x.is_base() && self.y.is_base()
    }

    /// Range check of both coordinates.
    pub fn check_coords_in_range(&self) -> (r: bool)
        ensures
            r == self.coords_in_range(),
    {
        self.x.check_base() && self.y.check_base()
    }
}

/// A succinct proof of one state transition: five wire commitments, the
/// permutation grand-product commitment, five split quotient commitments,
/// the two opening proofs, and ten scalar evaluations.  The closing
/// evaluation `prod_perm_zeta_omega_eval` is the value the verification
/// identity constrains.
#[derive(Clone, Copy, PartialEq, Eq, Structural, Debug)]
pub struct PlonkProof {
    pub wire_0: G1Point,
    pub wire_1: G1Point,
    pub wire_2: G1Point,
    pub wire_3: G1Point,
    pub wire_4: G1Point,
    pub prod_perm: G1Point,
    pub split_0: G1Point,
    pub split_1: G1Point,
    pub split_2: G1Point,
    pub split_3: G1Point,
    pub split_4: G1Point,
    pub zeta: G1Point,
    pub zeta_omega: G1Point,
    pub wire_eval_0: U256,
    pub wire_eval_1: U256,
    pub wire_eval_2: U256,
    pub wire_eval_3: U256,
    pub wire_eval_4: U256,
    pub sigma_eval_0: U256,
    pub sigma_eval_1: U256,
    pub sigma_eval_2: U256,
    pub sigma_eval_3: U256,
    pub prod_perm_zeta_omega_eval: U256,
}

impl PlonkProof {
    /// Every point has canonical base-field coordinates and every
    /// evaluation is a canonical scalar-field element.
    pub open spec fn well_formed(self) -> bool {
        &&& self.wire_0.coords_in_range()
        &&& self.wire_1.coords_in_range()
        &&& self.wire_2.coords_in_range()
        &&& self.wire_3.coords_in_range()
        &&& self.wire_4.coords_in_range()
        &&& self.prod_perm.coords_in_range()
        &&& self.split_0.coords_in_range()
        &&& self.split_1.coords_in_range()
        &&& self.split_2.coords_in_range()
        &&& self.split_3.coords_in_range()
        &&& self.split_4.coords_in_range()
        &&& self.zeta.coords_in_range()
        &&& self.zeta_omega.coords_in_range()
        &&& self.wire_eval_0.is_scalar()
        &&& self.wire_eval_1.is_scalar()
        &&& self.wire_eval_2.is_scalar()
        &&& self.wire_eval_3.is_scalar()
        &&& self.wire_eval_4.is_scalar()
        &&& self.sigma_eval_0.is_scalar()
        &&& self.sigma_eval_1.is_scalar()
        &&& self.sigma_eval_2.is_scalar()
        &&& self.sigma_eval_3.is_scalar()
        &&& self.prod_perm_zeta_omega_eval.is_scalar()
    }

    /// Range check of every component; anything out of range makes the
    /// proof malformed, it is never silently reduced.
    pub fn check_well_formed(&self) -> (r: bool)
        ensures
            r == self.well_formed(),
    {
        self.wire_0.check_coords_in_range() && self.wire_1.check_coords_in_range()
            && self.wire_2.check_coords_in_range() && self.wire_3.check_coords_in_range()
            && self.wire_4.check_coords_in_range() && self.prod_perm.check_coords_in_range()
            && self.split_0.check_coords_in_range() && self.split_1.check_coords_in_range()
            && self.split_2.check_coords_in_range() && self.split_3.check_coords_in_range()
            && self.split_4.check_coords_in_range() && self.zeta.check_coords_in_range()
            && self.zeta_omega.check_coords_in_range() && self.wire_eval_0.check_scalar()
            && self.wire_eval_1.check_scalar() && self.wire_eval_2.check_scalar()
            && self.wire_eval_3.check_scalar() && self.wire_eval_4.check_scalar()
            && self.sigma_eval_0.check_scalar() && self.sigma_eval_1.check_scalar()
            && self.sigma_eval_2.check_scalar() && self.sigma_eval_3.check_scalar()
            && self.prod_perm_zeta_omega_eval.check_scalar()
    }
}

/// A verifying key: the size of the evaluation domain the transition
/// circuit is arithmetized over, and the stake-table commitment of the
/// validator set the key was generated for.
#[derive(Clone, Copy, PartialEq, Eq, Structural, Debug)]
pub struct VerifyingKey {
    pub domain_size: u64,
    pub stake_table_comm: U256,
}

impl VerifyingKey {
    /// The domain is supported when its size is a power of two inside the
    /// supported range.
    pub open spec fn domain_supported(self) -> bool {
        &&& self.domain_size >= MIN_DOMAIN_SIZE
        &&& self.domain_size <= MAX_DOMAIN_SIZE
        &&& (self.domain_size & ((self.domain_size - 1) as u64)) == 0
    }

    /// Checks whether the evaluation domain is supported.
    pub fn check_domain_supported(&self) -> (r: bool)
        ensures
            r == self.domain_supported(),
    {
        self.domain_size >= MIN_DOMAIN_SIZE && self.domain_size <= MAX_DOMAIN_SIZE
            && (self.domain_size & (self.domain_size - 1)) == 0
    }
}

} // verus!
