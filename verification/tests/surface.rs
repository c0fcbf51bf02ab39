//! The call surface around the transition: lifecycle, ownership, the
//! verifier taken on its own, the commitment engine and the constants.

use light_client::commitment::stake_table_comm;
use light_client::errors::{
    InvalidArgs, InvalidInitialization, InvalidPolyEvalArgs, InvalidProof, LightClientMockErrors,
    OwnableInvalidOwner, OwnableUnauthorizedAccount, UUPSUnauthorizedCallContext,
    UnsupportedDegree, WrongPlonkVK,
};
use light_client::events::{InitializedFilter, LightClientMockEvents, OwnershipTransferredFilter};
use light_client::field::{
    BASE_MODULUS_LIMB_0, BASE_MODULUS_LIMB_1, BASE_MODULUS_LIMB_2, BASE_MODULUS_LIMB_3,
    SCALAR_MODULUS_LIMB_0, SCALAR_MODULUS_LIMB_1, SCALAR_MODULUS_LIMB_2, SCALAR_MODULUS_LIMB_3,
    U256,
};
use light_client::machine::{LightClientMock, STATE_CIRCUIT_DOMAIN_SIZE};
use light_client::plonk::{G1Point, PlonkProof, VerifyingKey};
use light_client::state::{Address, LightClientState};
use light_client::verify::{build_public_inputs, expected_eval, plonk_verify};

fn word(v: u64) -> U256 {
    U256::from_u64(v)
}

fn owner() -> Address {
    Address { low: 7, mid: 0, high: 0 }
}

fn stranger() -> Address {
    Address { low: 8, mid: 0, high: 0 }
}

fn genesis() -> LightClientState {
    LightClientState {
        view_num: 0,
        block_height: 0,
        block_comm_root: word(11),
        fee_ledger_comm: word(12),
        stake_table_bls_key_comm: word(13),
        stake_table_schnorr_key_comm: word(14),
        stake_table_amount_comm: word(15),
        threshold: word(100),
    }
}

fn scalar_modulus_word() -> U256 {
    U256 {
        limb0: SCALAR_MODULUS_LIMB_0,
        limb1: SCALAR_MODULUS_LIMB_1,
        limb2: SCALAR_MODULUS_LIMB_2,
        limb3: SCALAR_MODULUS_LIMB_3,
    }
}

fn base_modulus_word() -> U256 {
    U256 {
        limb0: BASE_MODULUS_LIMB_0,
        limb1: BASE_MODULUS_LIMB_1,
        limb2: BASE_MODULUS_LIMB_2,
        limb3: BASE_MODULUS_LIMB_3,
    }
}

fn point(x: u64, y: u64) -> G1Point {
    G1Point { x: word(x), y: word(y) }
}

fn proof_skeleton() -> PlonkProof {
    PlonkProof {
        wire_0: point(1, 2),
        wire_1: point(3, 4),
        wire_2: point(5, 6),
        wire_3: point(7, 8),
        wire_4: point(9, 10),
        prod_perm: point(11, 12),
        split_0: point(13, 14),
        split_1: point(15, 16),
        split_2: point(17, 18),
        split_3: point(19, 20),
        split_4: point(21, 22),
        zeta: point(23, 24),
        zeta_omega: point(25, 26),
        wire_eval_0: word(31),
        wire_eval_1: word(32),
        wire_eval_2: word(33),
        wire_eval_3: word(34),
        wire_eval_4: word(35),
        sigma_eval_0: word(41),
        sigma_eval_1: word(42),
        sigma_eval_2: word(43),
        sigma_eval_3: word(44),
        prod_perm_zeta_omega_eval: word(0),
    }
}

#[test]
fn deploy_validates_its_arguments() {
    assert!(matches!(
        LightClientMock::deploy(&genesis(), 0),
        Err(LightClientMockErrors::InvalidArgs(InvalidArgs))
    ));
    let mut bad = genesis();
    bad.block_comm_root = scalar_modulus_word();
    assert!(matches!(
        LightClientMock::deploy(&bad, 10),
        Err(LightClientMockErrors::InvalidArgs(InvalidArgs))
    ));

    let m = LightClientMock::deploy(&genesis(), 10).unwrap();
    assert_eq!(m.get_genesis_state(), genesis());
    assert_eq!(m.get_finalized_state(), genesis());
    assert_eq!(m.current_epoch(), 0);
    assert_eq!(m.blocks_per_epoch(), 10);
    assert_eq!(m.voting_stake_table_commitment(), stake_table_comm(&genesis()));
    assert_eq!(m.frozen_stake_table_commitment(), stake_table_comm(&genesis()));
    assert_eq!(m.voting_threshold(), word(100));
    assert_eq!(m.frozen_threshold(), word(100));
    assert!(m.owner().is_zero());
    assert!(m.events().is_empty());
}

#[test]
fn initialize_runs_once() {
    let mut m = LightClientMock::new();
    assert_eq!(
        m.initialize(&genesis(), 10, Address::zero()),
        Err(LightClientMockErrors::OwnableInvalidOwner(OwnableInvalidOwner {
            owner: Address::zero()
        }))
    );
    assert_eq!(
        m.initialize(&genesis(), 0, owner()),
        Err(LightClientMockErrors::InvalidArgs(InvalidArgs))
    );
    assert_eq!(m.initialize(&genesis(), 10, owner()), Ok(()));
    assert_eq!(m.owner(), owner());
    assert_eq!(
        m.initialize(&genesis(), 10, owner()),
        Err(LightClientMockErrors::InvalidInitialization(InvalidInitialization))
    );
    assert_eq!(m.initialized_filter(), vec![InitializedFilter { version: 1 }]);
    assert_eq!(
        m.ownership_transferred_filter(),
        vec![OwnershipTransferredFilter { previous_owner: Address::zero(), new_owner: owner() }]
    );
    assert_eq!(m.events().len(), 2);
    assert!(matches!(
        m.events()[1],
        LightClientMockEvents::InitializedFilter(InitializedFilter { version: 1 })
    ));
}

#[test]
fn commitment_is_deterministic_and_field_sensitive() {
    let a = stake_table_comm(&genesis());
    let b = stake_table_comm(&genesis());
    assert_eq!(a, b);
    let m = LightClientMock::deploy(&genesis(), 10).unwrap();
    assert_eq!(m.compute_stake_table_comm(&genesis()), a);

    let mut other = genesis();
    other.stake_table_amount_comm = word(16);
    assert_ne!(stake_table_comm(&other), a);
    // the commitment reads only the four stake-table quantities
    let mut same_table = genesis();
    same_table.view_num = 9;
    same_table.block_comm_root = word(77);
    assert_eq!(stake_table_comm(&same_table), a);
}

#[test]
fn verifier_rejects_each_malformed_shape() {
    let active = word(5);
    let vk = VerifyingKey { domain_size: STATE_CIRCUIT_DOMAIN_SIZE, stake_table_comm: active };
    let s = genesis();
    let public_inputs = build_public_inputs(&s, &active);
    let mut p = proof_skeleton();
    p.prod_perm_zeta_omega_eval = expected_eval(&vk, &public_inputs, &p);

    // a sound call goes through
    assert_eq!(plonk_verify(&vk, &public_inputs, &p), Ok(()));

    // unsupported domain: not a power of two
    let bad_vk = VerifyingKey { domain_size: 1000, stake_table_comm: active };
    assert_eq!(
        plonk_verify(&bad_vk, &public_inputs, &p),
        Err(LightClientMockErrors::UnsupportedDegree(UnsupportedDegree))
    );

    // wrong arity
    let mut short = public_inputs.clone();
    short.pop();
    assert_eq!(
        plonk_verify(&vk, &short, &p),
        Err(LightClientMockErrors::InvalidPolyEvalArgs(InvalidPolyEvalArgs))
    );

    // a public input out of the scalar field
    let mut shifted = public_inputs.clone();
    shifted[0] = scalar_modulus_word();
    assert_eq!(
        plonk_verify(&vk, &shifted, &p),
        Err(LightClientMockErrors::InvalidPolyEvalArgs(InvalidPolyEvalArgs))
    );

    // a key bound to a different validator set
    let foreign_vk = VerifyingKey { domain_size: STATE_CIRCUIT_DOMAIN_SIZE, stake_table_comm: word(6) };
    assert_eq!(
        plonk_verify(&foreign_vk, &public_inputs, &p),
        Err(LightClientMockErrors::WrongPlonkVK(WrongPlonkVK))
    );

    // an out-of-range coordinate makes the proof malformed
    let mut malformed = p;
    malformed.zeta.x = base_modulus_word();
    assert_eq!(
        plonk_verify(&vk, &public_inputs, &malformed),
        Err(LightClientMockErrors::InvalidProof(InvalidProof))
    );

    // a wrong closing evaluation fails the identity
    let mut forged = p;
    forged.prod_perm_zeta_omega_eval = word(1);
    assert_eq!(
        plonk_verify(&vk, &public_inputs, &forged),
        Err(LightClientMockErrors::InvalidProof(InvalidProof))
    );
}

#[test]
fn ownership_transfers_are_gated() {
    let mut m = LightClientMock::new();
    assert_eq!(m.initialize(&genesis(), 10, owner()), Ok(()));

    assert_eq!(
        m.transfer_ownership(stranger(), stranger()),
        Err(LightClientMockErrors::OwnableUnauthorizedAccount(OwnableUnauthorizedAccount {
            account: stranger()
        }))
    );
    assert_eq!(
        m.transfer_ownership(owner(), Address::zero()),
        Err(LightClientMockErrors::OwnableInvalidOwner(OwnableInvalidOwner {
            owner: Address::zero()
        }))
    );
    assert_eq!(m.transfer_ownership(owner(), stranger()), Ok(()));
    assert_eq!(m.owner(), stranger());
    assert_eq!(m.renounce_ownership(stranger()), Ok(()));
    assert!(m.owner().is_zero());
    assert_eq!(m.ownership_transferred_filter().len(), 3);
}

#[test]
fn overrides_are_owner_gated() {
    let mut m = LightClientMock::new();
    assert_eq!(m.initialize(&genesis(), 10, owner()), Ok(()));

    assert_eq!(
        m.set_current_epoch(stranger(), 4),
        Err(LightClientMockErrors::OwnableUnauthorizedAccount(OwnableUnauthorizedAccount {
            account: stranger()
        }))
    );
    assert_eq!(m.set_current_epoch(owner(), 4), Ok(()));
    assert_eq!(m.current_epoch(), 4);

    let mut forced = genesis();
    forced.view_num = 50;
    forced.block_height = 60;
    assert_eq!(
        m.set_finalized_state(stranger(), &forced),
        Err(LightClientMockErrors::OwnableUnauthorizedAccount(OwnableUnauthorizedAccount {
            account: stranger()
        }))
    );
    assert_eq!(m.set_finalized_state(owner(), &forced), Ok(()));
    assert_eq!(m.get_finalized_state(), forced);
}

#[test]
fn upgrade_surface_is_inert() {
    let mut m = LightClientMock::new();
    assert_eq!(m.initialize(&genesis(), 10, owner()), Ok(()));
    assert_eq!(
        m.upgrade_to_and_call(stranger(), &vec![1, 2, 3]),
        Err(LightClientMockErrors::UUPSUnauthorizedCallContext(UUPSUnauthorizedCallContext))
    );
    assert!(m.upgrade_filter().is_empty());
    assert!(m.upgraded_filter().is_empty());
    assert_eq!(
        m.proxiable_uuid(),
        U256 {
            limb0: 0x20A3CA505D382BBC,
            limb1: 0xCA3E2076CC3735A9,
            limb2: 0x0667C828492DB98D,
            limb3: 0x360894A13BA1A321,
        }
    );
    assert_eq!(m.get_version(), (1, 0, 0));
    assert_eq!(m.upgrade_interface_version(), "5.0.0");
}

#[test]
fn transcript_order_is_load_bearing() {
    let active = word(5);
    let vk = VerifyingKey { domain_size: STATE_CIRCUIT_DOMAIN_SIZE, stake_table_comm: active };
    let s = genesis();
    let public_inputs = build_public_inputs(&s, &active);
    let p = proof_skeleton();
    let straight = expected_eval(&vk, &public_inputs, &p);

    // permuting two public inputs changes the transcript
    let mut permuted = public_inputs.clone();
    permuted.swap(2, 3);
    assert_ne!(expected_eval(&vk, &permuted, &p), straight);

    // and so does any absorbed proof component
    let mut other = p;
    other.wire_1 = point(100, 200);
    assert_ne!(expected_eval(&vk, &public_inputs, &other), straight);

    // while the closing evaluation itself is not absorbed
    let mut closing = p;
    closing.prod_perm_zeta_omega_eval = word(9999);
    assert_eq!(expected_eval(&vk, &public_inputs, &closing), straight);
}

#[test]
fn word_comparisons_follow_the_numeric_order() {
    let small = word(5);
    let big = U256 { limb0: 0, limb1: 0, limb2: 0, limb3: 1 };
    assert!(small.lt(&big));
    assert!(!big.lt(&small));
    assert!(!small.lt(&small));
    assert!(small.check_scalar());
    assert!(!scalar_modulus_word().check_scalar());
    assert!(!base_modulus_word().check_base());
    assert!(scalar_modulus_word().check_base());
}
