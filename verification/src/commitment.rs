//! The stake-table commitment engine.
//!
//! The commitment compresses the four quantities that describe the active
//! validator set — the aggregated signing-key commitment, the secondary
//! key commitment, the stake-amount commitment and the voting threshold —
//! into one 256-bit digest.  The digest is used both as a public input to
//! the proof verifier and as the externally queryable voting and frozen
//! commitments, so its field order and domain tag are part of the wire
//! contract and must not change.

use vstd::prelude::*;
use crate::digest::{digest, spec_digest, TAG_STAKE_TABLE};
use crate::field::{spec_mask_scalar, spec_word_limbs, U256};
use crate::state::LightClientState;

verus! {

/// The limbs the commitment absorbs, in order: signing-key commitment,
/// secondary-key commitment, stake-amount commitment, threshold; each as
/// four limbs, least significant first.
pub open spec fn spec_stake_table_limbs(s: LightClientState) -> Seq<u64> {
    spec_word_limbs(s.stake_table_bls_key_comm) + spec_word_limbs(s.stake_table_schnorr_key_comm)
        + spec_word_limbs(s.stake_table_amount_comm) + spec_word_limbs(s.threshold)
}

/// The stake-table commitment of a state: the digest of the stake-table
/// limbs, masked down to a canonical scalar-field element so that the
/// commitment can stand in the verifier's public-input vector.
pub open spec fn spec_stake_table_comm(s: LightClientState) -> U256 {
    spec_mask_scalar(spec_digest(TAG_STAKE_TABLE, spec_stake_table_limbs(s)))
}

/// Computes the stake-table commitment of a state.
pub fn stake_table_comm(s: &LightClientState) -> (r: U256)
    ensures
        r == spec_stake_table_comm(*s),
        r.is_scalar(),
{
    let mut limbs: Vec<u64> = Vec::new();
    s.stake_table_bls_key_comm.push_limbs(&mut limbs);
    s.stake_table_schnorr_key_comm.push_limbs(&mut limbs);
    s.stake_table_amount_comm.push_limbs(&mut limbs);
    s.threshold.push_limbs(&mut limbs);
    proof {
        assert(limbs@ =~= spec_stake_table_limbs(*s));
    }
    digest(TAG_STAKE_TABLE, &limbs).mask_scalar()
}

/// The commitment is deterministic: states with equal stake-table fields
/// have equal commitments, across repeated calls and independent runs.
pub proof fn lemma_stake_table_comm_deterministic(a: LightClientState, b: LightClientState)
    requires
        a.stake_table_bls_key_comm == b.stake_table_bls_key_comm,
        a.stake_table_schnorr_key_comm == b.stake_table_schnorr_key_comm,
        a.stake_table_amount_comm == b.stake_table_amount_comm,
        a.threshold == b.threshold,
    ensures
        spec_stake_table_comm(a) == spec_stake_table_comm(b),
{
    assert(spec_stake_table_limbs(a) =~= spec_stake_table_limbs(b));
}

} // verus!
