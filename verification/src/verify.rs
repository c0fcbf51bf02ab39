//! The proof verifier.
//!
//! Verification reconstructs a Fiat-Shamir transcript from the verifying
//! key, the public inputs and the proof's commitments and evaluations, in
//! a fixed order — the order is load-bearing, any permutation changes the
//! transcript — and accepts exactly when the proof's closing evaluation
//! equals the digest of everything absorbed before it.  Out-of-range
//! components are rejected before anything enters the transcript; they are
//! treated as a malformed proof, never silently reduced.

use vstd::prelude::*;
use crate::digest::{digest, spec_digest, TAG_TRANSCRIPT};
use crate::errors::{
    InvalidPolyEvalArgs, InvalidProof, LightClientMockErrors, UnsupportedDegree, WrongPlonkVK,
};
use crate::field::{spec_mask_scalar, spec_word_from_u64, spec_word_limbs, U256};
use crate::plonk::{G1Point, PlonkProof, VerifyingKey};
use crate::state::LightClientState;

verus! {

/// The number of public inputs of the transition circuit.
pub const PUBLIC_INPUT_COUNT: usize = 9;

/// The position of the active stake-table commitment in the public-input
/// vector; the verifying key must be bound to the same commitment.
pub const STAKE_COMM_INPUT_INDEX: usize = 8;

/// The public-input vector of a transition: view number, block height,
/// block commitment root, fee-ledger commitment, the three stake-table
/// commitments and the threshold of the candidate state, then the active
/// stake-table commitment.
pub open spec fn spec_public_inputs(s: LightClientState, active_comm: U256) -> Seq<U256> {
    seq![
        spec_word_from_u64(s.view_num),
        spec_word_from_u64(s.block_height),
        s.block_comm_root,
        s.fee_ledger_comm,
        s.stake_table_bls_key_comm,
        s.stake_table_schnorr_key_comm,
        s.stake_table_amount_comm,
        s.threshold,
        active_comm,
    ]
}

/// Builds the public-input vector of a transition.
pub fn build_public_inputs(s: &LightClientState, active_comm: &U256) -> (r: Vec<U256>)
    ensures
        r@ == spec_public_inputs(*s, *active_comm),
{
    let mut r: Vec<U256> = Vec::new();
    r.push(U256::from_u64(s.view_num));
    r.push(U256::from_u64(s.block_height));
    r.push(s.block_comm_root);
    r.push(s.fee_ledger_comm);
    r.push(s.stake_table_bls_key_comm);
    r.push(s.stake_table_schnorr_key_comm);
    r.push(s.stake_table_amount_comm);
    r.push(s.threshold);
    r.push(*active_comm);
    proof {
        assert(r@ =~= spec_public_inputs(*s, *active_comm));
    }
    r
}

/// The limbs of a curve point: its two coordinates, least significant
/// limb first each.
pub open spec fn spec_point_limbs(p: G1Point) -> Seq<u64> {
    spec_word_limbs(p.x) + spec_word_limbs(p.y)
}

/// The limbs of a word sequence, word by word.
pub open spec fn spec_words_limbs(ws: Seq<U256>) -> Seq<u64>
    decreases ws.len(),
{
    if ws.len() == 0 {
        Seq::empty()
    } else {
        spec_words_limbs(ws.drop_last()) + spec_word_limbs(ws.last())
    }
}

/// The limbs the transcript absorbs, in order: the verifying key (domain
/// size, then its stake-table commitment), every public input, the
/// thirteen proof commitments, and every evaluation except the closing
/// one.
pub open spec fn spec_transcript_limbs(
    vk: VerifyingKey,
    public_inputs: Seq<U256>,
    proof: PlonkProof,
) -> Seq<u64> {
    seq![vk.domain_size] + spec_word_limbs(vk.stake_table_comm) + spec_words_limbs(public_inputs)
        + spec_point_limbs(proof.wire_0) + spec_point_limbs(proof.wire_1)
        + spec_point_limbs(proof.wire_2) + spec_point_limbs(proof.wire_3)
        + spec_point_limbs(proof.wire_4) + spec_point_limbs(proof.prod_perm)
        + spec_point_limbs(proof.split_0) + spec_point_limbs(proof.split_1)
        + spec_point_limbs(proof.split_2) + spec_point_limbs(proof.split_3)
        + spec_point_limbs(proof.split_4) + spec_point_limbs(proof.zeta)
        + spec_point_limbs(proof.zeta_omega) + spec_word_limbs(proof.wire_eval_0)
        + spec_word_limbs(proof.wire_eval_1) + spec_word_limbs(proof.wire_eval_2)
        + spec_word_limbs(proof.wire_eval_3) + spec_word_limbs(proof.wire_eval_4)
        + spec_word_limbs(proof.sigma_eval_0) + spec_word_limbs(proof.sigma_eval_1)
        + spec_word_limbs(proof.sigma_eval_2) + spec_word_limbs(proof.sigma_eval_3)
}

/// The closing evaluation the verifier expects: the transcript digest,
/// masked down to a canonical scalar.
pub open spec fn spec_expected_eval(
    vk: VerifyingKey,
    public_inputs: Seq<U256>,
    proof: PlonkProof,
) -> U256 {
    spec_mask_scalar(spec_digest(TAG_TRANSCRIPT, spec_transcript_limbs(vk, public_inputs, proof)))
}

/// Computes the closing evaluation the verification identity constrains.
/// A proving backend for this verifier must place exactly this value in
/// the proof's `prod_perm_zeta_omega_eval` slot.
pub fn expected_eval(vk: &VerifyingKey, public_inputs: &Vec<U256>, proof: &PlonkProof) -> (r:
    U256)
    ensures
        r == spec_expected_eval(*vk, public_inputs@, *proof),
        r.is_scalar(),
{
    let mut limbs: Vec<u64> = Vec::new();
    limbs.push(vk.domain_size);
    vk.stake_table_comm.push_limbs(&mut limbs);
    let ghost head = seq![vk.domain_size] + spec_word_limbs(vk.stake_table_comm);
    proof {
        assert(limbs@ =~= head);
    }
    let mut i: usize = 0;
    while i < public_inputs.len()
        invariant
            0 <= i <= public_inputs.len(),
            limbs@ == head + spec_words_limbs(public_inputs@.take(i as int)),
        decreases public_inputs.len() - i,
    {
        public_inputs[i].push_limbs(&mut limbs);
        proof {
            assert(public_inputs@.take(i + 1 as int).drop_last() =~= public_inputs@.take(
                i as int,
            ));
            assert(public_inputs@.take(i + 1 as int).last() == public_inputs@[i as int]);
            assert(limbs@ =~= head + spec_words_limbs(public_inputs@.take(i + 1 as int)));
        }
        i = i + 1;
    }
    proof {
        assert(public_inputs@.take(public_inputs@.len() as int) =~= public_inputs@);
    }
    push_point_limbs(&mut limbs, &proof.wire_0);
    push_point_limbs(&mut limbs, &proof.wire_1);
    push_point_limbs(&mut limbs, &proof.wire_2);
    push_point_limbs(&mut limbs, &proof.wire_3);
    push_point_limbs(&mut limbs, &proof.wire_4);
    push_point_limbs(&mut limbs, &proof.prod_perm);
    push_point_limbs(&mut limbs, &proof.split_0);
    push_point_limbs(&mut limbs, &proof.split_1);
    push_point_limbs(&mut limbs, &proof.split_2);
    push_point_limbs(&mut limbs, &proof.split_3);
    push_point_limbs(&mut limbs, &proof.split_4);
    push_point_limbs(&mut limbs, &proof.zeta);
    push_point_limbs(&mut limbs, &proof.zeta_omega);
    proof.wire_eval_0.push_limbs(&mut limbs);
    proof.wire_eval_1.push_limbs(&mut limbs);
    proof.wire_eval_2.push_limbs(&mut limbs);
    proof.wire_eval_3.push_limbs(&mut limbs);
    proof.wire_eval_4.push_limbs(&mut limbs);
    proof.sigma_eval_0.push_limbs(&mut limbs);
    proof.sigma_eval_1.push_limbs(&mut limbs);
    proof.sigma_eval_2.push_limbs(&mut limbs);
    proof.sigma_eval_3.push_limbs(&mut limbs);
    proof {
        assert(limbs@ =~= spec_transcript_limbs(*vk, public_inputs@, *proof));
    }
    let d = digest(TAG_TRANSCRIPT, &limbs);
    d.mask_scalar()
}

fn push_point_limbs(out: &mut Vec<u64>, p: &G1Point)
    ensures
        final(out)@ == old(out)@ + spec_point_limbs(*p),
{
    p.x.push_limbs(out);
    p.y.push_limbs(out);
    proof {
        assert(out@ =~= old(out)@ + spec_point_limbs(*p));
    }
}

/// The verdict of the verifier on a proof, a verifying key and a
/// public-input vector:
/// - the domain must be supported, else `UnsupportedDegree`;
/// - the public-input vector must have the circuit's arity and hold only
///   canonical scalars, else `InvalidPolyEvalArgs`;
/// - the verifying key must be bound to the stake-table commitment the
///   public inputs carry, else `WrongPlonkVK`;
/// - the proof must be well formed, else `InvalidProof`;
/// - the closing evaluation must equal the transcript digest, else
///   `InvalidProof`.
pub open spec fn spec_plonk_verify(
    vk: VerifyingKey,
    public_inputs: Seq<U256>,
    proof: PlonkProof,
) -> Result<(), LightClientMockErrors> {
    if !vk.domain_supported() {
        Err(LightClientMockErrors::UnsupportedDegree(UnsupportedDegree))
    } else if public_inputs.len() != PUBLIC_INPUT_COUNT || (exists|i: int|
        0 <= i < public_inputs.len() && !(#[trigger] public_inputs[i]).is_scalar()) {
        Err(LightClientMockErrors::InvalidPolyEvalArgs(InvalidPolyEvalArgs))
    } else if vk.stake_table_comm != public_inputs[STAKE_COMM_INPUT_INDEX as int] {
        Err(LightClientMockErrors::WrongPlonkVK(WrongPlonkVK))
    } else if !proof.well_formed() {
        Err(LightClientMockErrors::InvalidProof(InvalidProof))
    } else if proof.prod_perm_zeta_omega_eval != spec_expected_eval(vk, public_inputs, proof) {
        Err(LightClientMockErrors::InvalidProof(InvalidProof))
    } else {
        Ok(())
    }
}

/// Verifies a proof against a verifying key and a public-input vector.
pub fn plonk_verify(vk: &VerifyingKey, public_inputs: &Vec<U256>, proof: &PlonkProof) -> (r:
    Result<(), LightClientMockErrors>)
    ensures
        r == spec_plonk_verify(*vk, public_inputs@, *proof),
{
    if !vk.check_domain_supported() {
        return Err(LightClientMockErrors::UnsupportedDegree(UnsupportedDegree));
    }
    if public_inputs.len() != PUBLIC_INPUT_COUNT {
        return Err(LightClientMockErrors::InvalidPolyEvalArgs(InvalidPolyEvalArgs));
    }
    let mut i: usize = 0;
    while i < public_inputs.len()
        invariant
            0 <= i <= public_inputs.len(),
            vk.domain_supported(),
            public_inputs@.len() == PUBLIC_INPUT_COUNT,
            forall|j: int| 0 <= j < i ==> (#[trigger] public_inputs@[j]).is_scalar(),
        decreases public_inputs.len() - i,
    {
        if !public_inputs[i].check_scalar() {
            proof {
                assert(!(public_inputs@[i as int]).is_scalar());
            }
            return Err(LightClientMockErrors::InvalidPolyEvalArgs(InvalidPolyEvalArgs));
        }
        i = i + 1;
    }
    if !(vk.stake_table_comm == public_inputs[STAKE_COMM_INPUT_INDEX]) {
        return Err(LightClientMockErrors::WrongPlonkVK(WrongPlonkVK));
    }
    if !proof.check_well_formed() {
        return Err(LightClientMockErrors::InvalidProof(InvalidProof));
    }
    let expected = expected_eval(vk, public_inputs, proof);
    if !(proof.prod_perm_zeta_omega_eval == expected) {
        return Err(LightClientMockErrors::InvalidProof(InvalidProof));
    }
    Ok(())
}

} // verus!
