//! End-to-end scenarios of the transition entry point.

use light_client::commitment::stake_table_comm;
use light_client::errors::{
    InvalidArgs, InvalidProof, LightClientMockErrors, MissingLastBlockForCurrentEpoch,
    OutdatedState, WrongPlonkVK,
};
use light_client::events::{EpochChangedFilter, NewStateFilter};
use light_client::field::U256;
use light_client::machine::{LightClientMock, STATE_CIRCUIT_DOMAIN_SIZE};
use light_client::plonk::{G1Point, PlonkProof, VerifyingKey};
use light_client::state::{Address, LightClientState};
use light_client::verify::{build_public_inputs, expected_eval};

fn word(v: u64) -> U256 {
    U256::from_u64(v)
}

fn owner() -> Address {
    Address { low: 7, mid: 0, high: 0 }
}

fn genesis() -> LightClientState {
    LightClientState {
        view_num: 0,
        block_height: 0,
        block_comm_root: word(11),
        fee_ledger_comm: word(12),
        stake_table_bls_key_comm: word(13),
        stake_table_schnorr_key_comm: word(14),
        stake_table_amount_comm: word(15),
        threshold: word(100),
    }
}

/// A candidate state that keeps the genesis validator set.
fn candidate(view_num: u64, block_height: u64) -> LightClientState {
    let g = genesis();
    LightClientState {
        view_num,
        block_height,
        block_comm_root: word(1000 + block_height),
        fee_ledger_comm: word(2000 + block_height),
        stake_table_bls_key_comm: g.stake_table_bls_key_comm,
        stake_table_schnorr_key_comm: g.stake_table_schnorr_key_comm,
        stake_table_amount_comm: g.stake_table_amount_comm,
        threshold: g.threshold,
    }
}

fn point(x: u64, y: u64) -> G1Point {
    G1Point { x: word(x), y: word(y) }
}

/// A proof with in-range components and an unset closing evaluation.
fn proof_skeleton() -> PlonkProof {
    PlonkProof {
        wire_0: point(1, 2),
        wire_1: point(3, 4),
        wire_2: point(5, 6),
        wire_3: point(7, 8),
        wire_4: point(9, 10),
        prod_perm: point(11, 12),
        split_0: point(13, 14),
        split_1: point(15, 16),
        split_2: point(17, 18),
        split_3: point(19, 20),
        split_4: point(21, 22),
        zeta: point(23, 24),
        zeta_omega: point(25, 26),
        wire_eval_0: word(31),
        wire_eval_1: word(32),
        wire_eval_2: word(33),
        wire_eval_3: word(34),
        wire_eval_4: word(35),
        sigma_eval_0: word(41),
        sigma_eval_1: word(42),
        sigma_eval_2: word(43),
        sigma_eval_3: word(44),
        prod_perm_zeta_omega_eval: word(0),
    }
}

/// Produces a proof against the machine's stored verifying key: fills the
/// closing evaluation with the transcript digest the verifier recomputes.
fn prove(m: &LightClientMock, st: &LightClientState) -> PlonkProof {
    let e = st.block_height / m.blocks_per_epoch() as u64;
    let active = if e == m.current_epoch() {
        m.voting_stake_table_commitment()
    } else {
        m.frozen_stake_table_commitment()
    };
    let public_inputs = build_public_inputs(st, &active);
    let mut p = proof_skeleton();
    p.prod_perm_zeta_omega_eval = expected_eval(&m.vk, &public_inputs, &p);
    p
}

fn fresh_machine() -> LightClientMock {
    let mut m = LightClientMock::new();
    let r = m.initialize(&genesis(), 10, owner());
    assert!(r.is_ok());
    m
}

#[test]
fn scenario_two_transitions_cross_one_epoch() {
    let mut m = fresh_machine();

    let s1 = candidate(1, 5);
    let p1 = prove(&m, &s1);
    assert_eq!(m.new_finalized_state(&s1, &p1), Ok(()));
    assert_eq!(m.current_epoch(), 0);
    assert_eq!(m.get_finalized_state(), s1);

    let frozen_before = m.frozen_stake_table_commitment();
    let s2 = candidate(2, 15);
    let p2 = prove(&m, &s2);
    assert_eq!(m.new_finalized_state(&s2, &p2), Ok(()));
    assert_eq!(m.current_epoch(), 1);
    assert_eq!(m.get_finalized_state(), s2);
    // the frozen commitment rotated into voting
    assert_eq!(m.voting_stake_table_commitment(), frozen_before);
    assert_eq!(m.frozen_stake_table_commitment(), stake_table_comm(&s2));
    assert_eq!(m.frozen_threshold(), s2.threshold);

    let rollovers = m.epoch_changed_filter();
    assert_eq!(rollovers, vec![EpochChangedFilter(1)]);
    let updates = m.new_state_filter();
    assert_eq!(
        updates,
        vec![
            NewStateFilter { view_num: 1, block_height: 5, block_comm_root: s1.block_comm_root },
            NewStateFilter { view_num: 2, block_height: 15, block_comm_root: s2.block_comm_root },
        ]
    );
}

#[test]
fn epoch_rollover_from_epoch_one_to_two() {
    let mut m = fresh_machine();
    assert_eq!(m.set_current_epoch(owner(), 1), Ok(()));

    // with 10 blocks per epoch, height 25 lies in epoch 2
    let s = candidate(1, 25);
    let p = prove(&m, &s);
    assert_eq!(m.new_finalized_state(&s, &p), Ok(()));
    assert_eq!(m.current_epoch(), 2);
    let rollovers = m.epoch_changed_filter();
    assert_eq!(rollovers, vec![EpochChangedFilter(1), EpochChangedFilter(2)]);
}

#[test]
fn stale_resubmission_is_outdated() {
    let mut m = fresh_machine();
    let s1 = candidate(1, 5);
    let p1 = prove(&m, &s1);
    assert_eq!(m.new_finalized_state(&s1, &p1), Ok(()));
    // the same accepted pair a second time
    assert_eq!(
        m.new_finalized_state(&s1, &p1),
        Err(LightClientMockErrors::OutdatedState(OutdatedState))
    );
    assert_eq!(m.get_finalized_state(), s1);
}

#[test]
fn lower_height_is_outdated() {
    let mut m = fresh_machine();
    let s1 = candidate(1, 5);
    let p1 = prove(&m, &s1);
    assert_eq!(m.new_finalized_state(&s1, &p1), Ok(()));
    let s2 = candidate(2, 4);
    let p2 = prove(&m, &s2);
    assert_eq!(
        m.new_finalized_state(&s2, &p2),
        Err(LightClientMockErrors::OutdatedState(OutdatedState))
    );
}

#[test]
fn out_of_range_component_is_invalid_args() {
    let mut m = fresh_machine();
    let mut s = candidate(1, 5);
    // the scalar-field modulus itself is the smallest out-of-range value
    s.threshold = U256 {
        limb0: light_client::field::SCALAR_MODULUS_LIMB_0,
        limb1: light_client::field::SCALAR_MODULUS_LIMB_1,
        limb2: light_client::field::SCALAR_MODULUS_LIMB_2,
        limb3: light_client::field::SCALAR_MODULUS_LIMB_3,
    };
    let p = prove(&m, &s);
    assert_eq!(
        m.new_finalized_state(&s, &p),
        Err(LightClientMockErrors::InvalidArgs(InvalidArgs))
    );
}

#[test]
fn skipping_an_epoch_names_the_missing_height() {
    let mut m = fresh_machine();
    // height 25 is epoch 2, two epochs past the current one
    let s = candidate(1, 25);
    let p = prove(&m, &s);
    assert_eq!(
        m.new_finalized_state(&s, &p),
        Err(LightClientMockErrors::MissingLastBlockForCurrentEpoch(
            MissingLastBlockForCurrentEpoch { expected_block_height: 9 }
        ))
    );
    assert_eq!(m.current_epoch(), 0);
}

#[test]
fn in_epoch_candidate_is_judged_by_the_proof_alone() {
    let mut m = fresh_machine();
    // an in-epoch candidate carrying other stake-table fields is not
    // gated by the machine: the fields stand in the public inputs, so
    // the proof decides
    let mut s = candidate(1, 5);
    s.stake_table_bls_key_comm = word(999);
    let p = prove(&m, &s);
    let voting = m.voting_stake_table_commitment();
    let frozen = m.frozen_stake_table_commitment();
    assert_eq!(m.new_finalized_state(&s, &p), Ok(()));
    assert_eq!(m.get_finalized_state(), s);
    // no rotation inside the epoch: both commitments are untouched
    assert_eq!(m.voting_stake_table_commitment(), voting);
    assert_eq!(m.frozen_stake_table_commitment(), frozen);

    // without an attesting proof the same kind of candidate fails
    let mut s2 = candidate(2, 6);
    s2.stake_table_bls_key_comm = word(998);
    let mut bad = prove(&m, &s2);
    bad.sigma_eval_0 = word(777);
    assert_eq!(
        m.new_finalized_state(&s2, &bad),
        Err(LightClientMockErrors::InvalidProof(InvalidProof))
    );
}

#[test]
fn failed_verification_changes_nothing() {
    let mut m = fresh_machine();
    let s1 = candidate(1, 5);
    let p1 = prove(&m, &s1);
    assert_eq!(m.new_finalized_state(&s1, &p1), Ok(()));

    let finalized = m.get_finalized_state();
    let epoch = m.current_epoch();
    let voting = m.voting_stake_table_commitment();
    let frozen = m.frozen_stake_table_commitment();
    let voting_threshold = m.voting_threshold();
    let frozen_threshold = m.frozen_threshold();
    let log = m.events();

    let s2 = candidate(2, 15);
    let mut bad = prove(&m, &s2);
    bad.wire_eval_0 = word(777);  // breaks the transcript
    assert_eq!(
        m.new_finalized_state(&s2, &bad),
        Err(LightClientMockErrors::InvalidProof(InvalidProof))
    );

    assert_eq!(m.get_finalized_state(), finalized);
    assert_eq!(m.current_epoch(), epoch);
    assert_eq!(m.voting_stake_table_commitment(), voting);
    assert_eq!(m.frozen_stake_table_commitment(), frozen);
    assert_eq!(m.voting_threshold(), voting_threshold);
    assert_eq!(m.frozen_threshold(), frozen_threshold);
    assert_eq!(m.events(), log);
}

#[test]
fn proof_against_foreign_key_is_invalid_while_key_is_current() {
    let mut m = fresh_machine();
    let s = candidate(1, 5);

    // while the stored key matches the active validator set, a proof
    // transcripted against some other key is simply an invalid proof
    let foreign_vk = VerifyingKey {
        domain_size: STATE_CIRCUIT_DOMAIN_SIZE,
        stake_table_comm: word(424242),
    };
    let active = m.voting_stake_table_commitment();
    let public_inputs = build_public_inputs(&s, &active);
    let mut p = proof_skeleton();
    p.prod_perm_zeta_omega_eval = expected_eval(&foreign_vk, &public_inputs, &p);

    let before = m.get_finalized_state();
    assert_eq!(
        m.new_finalized_state(&s, &p),
        Err(LightClientMockErrors::InvalidProof(InvalidProof))
    );
    assert_eq!(m.get_finalized_state(), before);
    assert_eq!(m.current_epoch(), 0);
}

#[test]
fn stale_key_after_rotation_is_wrong_plonk_vk() {
    let mut m = fresh_machine();

    // a crossing may carry a new validator set: its digest is frozen in
    // for the following epoch
    let mut s1 = candidate(1, 15);
    s1.stake_table_bls_key_comm = word(999);
    let p1 = prove(&m, &s1);
    assert_eq!(m.new_finalized_state(&s1, &p1), Ok(()));
    assert_eq!(m.current_epoch(), 1);
    assert_eq!(m.frozen_stake_table_commitment(), stake_table_comm(&s1));

    // the next crossing activates the new set, which the deployed key
    // was not generated for: the verifier reports the stale key and the
    // call changes nothing
    let finalized = m.get_finalized_state();
    let voting = m.voting_stake_table_commitment();
    let frozen = m.frozen_stake_table_commitment();
    let log = m.events();
    let mut s2 = candidate(2, 25);
    s2.stake_table_bls_key_comm = word(999);
    let p2 = prove(&m, &s2);
    assert_eq!(
        m.new_finalized_state(&s2, &p2),
        Err(LightClientMockErrors::WrongPlonkVK(WrongPlonkVK))
    );
    assert_eq!(m.get_finalized_state(), finalized);
    assert_eq!(m.current_epoch(), 1);
    assert_eq!(m.voting_stake_table_commitment(), voting);
    assert_eq!(m.frozen_stake_table_commitment(), frozen);
    assert_eq!(m.events(), log);

    // inside the epoch the voting set still matches the key, so
    // transitions keep working
    let s3 = candidate(3, 16);
    let p3 = prove(&m, &s3);
    assert_eq!(m.new_finalized_state(&s3, &p3), Ok(()));
}

#[test]
fn snapshots_record_the_closing_state() {
    let mut m = fresh_machine();
    let s1 = candidate(1, 5);
    let p1 = prove(&m, &s1);
    assert_eq!(m.new_finalized_state(&s1, &p1), Ok(()));
    // no epoch closed yet: every index reads as the zero state
    assert_eq!(m.states(0), LightClientState::zero());

    let s2 = candidate(2, 15);
    let p2 = prove(&m, &s2);
    assert_eq!(m.new_finalized_state(&s2, &p2), Ok(()));
    // epoch 0 closed with s1 as its last finalized state
    assert_eq!(m.states(0), s1);
    assert_eq!(m.states(7), LightClientState::zero());
}

#[test]
fn uninitialized_machine_accepts_nothing() {
    let mut m = LightClientMock::new();
    let s = candidate(1, 5);
    let p = proof_skeleton();
    assert_eq!(
        m.new_finalized_state(&s, &p),
        Err(LightClientMockErrors::NotInitializing(
            light_client::errors::NotInitializing
        ))
    );
}
