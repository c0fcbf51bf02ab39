//! Notifications recorded by the light client.
//!
//! Every successful mutating call appends its notifications to the
//! machine's log; the filter accessors on the machine return the matching
//! entries in the order they were recorded.

use vstd::prelude::*;
use crate::field::U256;
use crate::state::Address;

verus! {

/// An epoch rollover, carrying the new epoch index.
#[derive(Clone, Copy, PartialEq, Eq, Structural, Debug)]
pub struct EpochChangedFilter(pub u64);

/// Completed initialization, carrying the initialized version.
#[derive(Clone, Copy, PartialEq, Eq, Structural, Debug)]
pub struct InitializedFilter {
    pub version: u64,
}

/// A new finalized state.
#[derive(Clone, Copy, PartialEq, Eq, Structural, Debug)]
pub struct NewStateFilter {
    pub view_num: u64,
    pub block_height: u64,
    pub block_comm_root: U256,
}

/// An ownership transfer.
#[derive(Clone, Copy, PartialEq, Eq, Structural, Debug)]
pub struct OwnershipTransferredFilter {
    pub previous_owner: Address,
    pub new_owner: Address,
}

/// An announced implementation upgrade.
#[derive(Clone, Copy, PartialEq, Eq, Structural, Debug)]
pub struct UpgradeFilter {
    pub implementation: Address,
}

/// A completed implementation upgrade.
#[derive(Clone, Copy, PartialEq, Eq, Structural, Debug)]
pub struct UpgradedFilter {
    pub implementation: Address,
}

/// Container for every notification the light client can record.
#[derive(Clone, Copy, PartialEq, Eq, Structural, Debug)]
pub enum LightClientMockEvents {
    EpochChangedFilter(EpochChangedFilter),
    InitializedFilter(InitializedFilter),
    NewStateFilter(NewStateFilter),
    OwnershipTransferredFilter(OwnershipTransferredFilter),
    UpgradeFilter(UpgradeFilter),
    UpgradedFilter(UpgradedFilter),
}

} // verus!
