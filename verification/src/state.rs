//! Addresses and the finalized consensus state.

use vstd::prelude::*;
use crate::field::U256;

verus! {

/// A 160-bit account address, split into two 64-bit words and a 32-bit
/// top word.  The zero address stands for "no account".
#[derive(Clone, Copy, PartialEq, Eq, Structural, Debug)]
pub struct Address {
    pub low: u64,
    pub mid: u64,
    pub high: u32,
}

impl Address {
    /// Whether this is the zero address.
    pub open spec fn spec_is_zero(self) -> bool {
        self.low == 0 && self.mid == 0 && self.high == 0
    }

    /// The zero address.
    pub fn zero() -> (r: Address)
        ensures
            r.spec_is_zero(),
            r == (Address { low: 0, mid: 0, high: 0 }),
    {
        Address { low: 0, mid: 0, high: 0 }
    }

    /// Tests for the zero address.
    pub fn is_zero(&self) -> (r: bool)
        ensures
            r == self.spec_is_zero(),
    {
        self.low == 0 && self.mid == 0 && self.high == 0
    }
}

/// The chain-of-custody snapshot that the light client finalizes: a view
/// number and block height, commitment roots for block contents and the
/// fee ledger, three commitments jointly describing the active validator
/// set, and the stake-weight threshold a certificate must meet.
#[derive(Clone, Copy, PartialEq, Eq, Structural, Debug)]
pub struct LightClientState {
    pub view_num: u64,
    pub block_height: u64,
    pub block_comm_root: U256,
    pub fee_ledger_comm: U256,
    pub stake_table_bls_key_comm: U256,
    pub stake_table_schnorr_key_comm: U256,
    pub stake_table_amount_comm: U256,
    pub threshold: U256,
}

/// The all-zero state, returned for epochs with no recorded snapshot.
pub open spec fn spec_zero_state() -> LightClientState {
    LightClientState {
        view_num: 0,
        block_height: 0,
        block_comm_root: U256 { limb0: 0, limb1: 0, limb2: 0, limb3: 0 },
        fee_ledger_comm: U256 { limb0: 0, limb1: 0, limb2: 0, limb3: 0 },
        stake_table_bls_key_comm: U256 { limb0: 0, limb1: 0, limb2: 0, limb3: 0 },
        stake_table_schnorr_key_comm: U256 { limb0: 0, limb1: 0, limb2: 0, limb3: 0 },
        stake_table_amount_comm: U256 { limb0: 0, limb1: 0, limb2: 0, limb3: 0 },
        threshold: U256 { limb0: 0, limb1: 0, limb2: 0, limb3: 0 },
    }
}

impl LightClientState {
    /// Every 256-bit component is a canonical scalar-field element.
    pub open spec fn fields_in_range(self) -> bool {
        &&& self.block_comm_root.is_scalar()
        &&& self.fee_ledger_comm.is_scalar()
        &&& self.stake_table_bls_key_comm.is_scalar()
        &&& self.stake_table_schnorr_key_comm.is_scalar()
        &&& self.stake_table_amount_comm.is_scalar()
        &&& self.threshold.is_scalar()
    }

    /// Range check of every 256-bit component.
    pub fn check_fields_in_range(&self) -> (r: bool)
        ensures
            r == self.fields_in_range(),
    {
        self.block_comm_root.check_scalar() && self.fee_ledger_comm.check_scalar()
            && self.stake_table_bls_key_comm.check_scalar()
            && self.stake_table_schnorr_key_comm.check_scalar()
            && self.stake_table_amount_comm.check_scalar() && self.threshold.check_scalar()
    }

    /// The all-zero state.
    pub fn zero() -> (r: LightClientState)
        ensures
            r == spec_zero_state(),
    {
        LightClientState {
            view_num: 0,
            block_height: 0,
            block_comm_root: U256::zero(),
            fee_ledger_comm: U256::zero(),
            stake_table_bls_key_comm: U256::zero(),
            stake_table_schnorr_key_comm: U256::zero(),
            stake_table_amount_comm: U256::zero(),
            threshold: U256::zero(),
        }
    }
}

} // verus!
