//! The light-client state machine.
//!
//! One value of [`LightClientMock`] is one deployed instance: it owns the
//! genesis state, the finalized state, the per-epoch snapshot table, the
//! voting and frozen stake-table commitments with their thresholds, the
//! verifying key of the deployed transition circuit, the owner account
//! and the notification log, and it is the sole writer of all of them.
//! Every mutating call either commits completely or leaves every stored
//! field untouched.
//!
//! This is the test-deployment flavour of the machine: besides the proven
//! transition entry point it keeps the owner-gated `set_current_epoch` and
//! `set_finalized_state` overrides, which bypass proof verification and
//! must never be exposed by a production deployment.

use vstd::prelude::*;
use crate::commitment::{spec_stake_table_comm, stake_table_comm};
use crate::errors::{
    InvalidArgs, InvalidInitialization, LightClientMockErrors, MissingLastBlockForCurrentEpoch,
    NotInitializing, OutdatedState, OwnableInvalidOwner, OwnableUnauthorizedAccount,
    UUPSUnauthorizedCallContext,
};
use crate::events::{
    EpochChangedFilter, InitializedFilter, LightClientMockEvents, NewStateFilter,
    OwnershipTransferredFilter, UpgradeFilter, UpgradedFilter,
};
use crate::field::U256;
use crate::plonk::{PlonkProof, VerifyingKey};
use crate::state::{spec_zero_state, Address, LightClientState};
use crate::verify::{build_public_inputs, plonk_verify, spec_plonk_verify, spec_public_inputs};

verus! {

/// The size of the evaluation domain of the state-transition circuit.
pub const STATE_CIRCUIT_DOMAIN_SIZE: u64 = 0x100000;

/// Limbs of the proxy implementation slot reported by `proxiable_uuid`,
/// least significant first.
pub const PROXIABLE_UUID_LIMB_0: u64 = 0x20A3CA505D382BBC;
pub const PROXIABLE_UUID_LIMB_1: u64 = 0xCA3E2076CC3735A9;
pub const PROXIABLE_UUID_LIMB_2: u64 = 0x0667C828492DB98D;
pub const PROXIABLE_UUID_LIMB_3: u64 = 0x360894A13BA1A321;

/// The first entry with the given epoch index, if any.
pub open spec fn spec_snapshot_find(
    s: Seq<(u64, LightClientState)>,
    epoch: u64,
) -> Option<LightClientState>
    decreases s.len(),
{
    if s.len() == 0 {
        None
    } else if s[0].0 == epoch {
        Some(s[0].1)
    } else {
        spec_snapshot_find(s.skip(1), epoch)
    }
}

/// Appends a snapshot unless the epoch already has one: a recorded epoch
/// snapshot is immutable.
pub open spec fn spec_snapshot_record(
    s: Seq<(u64, LightClientState)>,
    epoch: u64,
    st: LightClientState,
) -> Seq<(u64, LightClientState)> {
    if spec_snapshot_find(s, epoch) is Some {
        s
    } else {
        s.push((epoch, st))
    }
}

proof fn lemma_snapshot_find_push(s: Seq<(u64, LightClientState)>, p: (u64, LightClientState), k: u64)
    ensures
        spec_snapshot_find(s.push(p), k) == (if spec_snapshot_find(s, k) is Some {
            spec_snapshot_find(s, k)
        } else if p.0 == k {
            Some(p.1)
        } else {
            None
        }),
    decreases s.len(),
{
    if s.len() == 0 {
        assert(s.push(p)[0] == p);
        assert(s.push(p).skip(1) =~= Seq::<(u64, LightClientState)>::empty());
        assert(spec_snapshot_find(Seq::<(u64, LightClientState)>::empty(), k) is None);
        assert(spec_snapshot_find(s, k) is None);
    } else {
        assert(s.push(p)[0] == s[0]);
        assert(s.push(p).skip(1) =~= s.skip(1).push(p));
        lemma_snapshot_find_push(s.skip(1), p, k);
    }
}

/// Recorded snapshots are immutable and the table is append-only:
/// recording a snapshot never changes what any other epoch reads back,
/// recording over an existing entry changes nothing at all, and
/// recording into a hole fills exactly that hole.
pub proof fn lemma_snapshot_immutable(
    s: Seq<(u64, LightClientState)>,
    epoch: u64,
    st: LightClientState,
    other: u64,
)
    ensures
        other != epoch ==> spec_snapshot_find(spec_snapshot_record(s, epoch, st), other)
            == spec_snapshot_find(s, other),
        spec_snapshot_find(s, epoch) is Some ==> spec_snapshot_record(s, epoch, st) == s,
        spec_snapshot_find(s, epoch) is None ==> spec_snapshot_find(
            spec_snapshot_record(s, epoch, st),
            epoch,
        ) == Some(st),
{
    lemma_snapshot_find_push(s, (epoch, st), other);
    lemma_snapshot_find_push(s, (epoch, st), epoch);
}

/// The state recorded for an epoch, or the all-zero state when the epoch
/// has no recorded snapshot.
pub open spec fn spec_states(s: Seq<(u64, LightClientState)>, epoch: u64) -> LightClientState {
    match spec_snapshot_find(s, epoch) {
        Some(st) => st,
        None => spec_zero_state(),
    }
}

/// The epoch a block height belongs to.
pub open spec fn spec_epoch_of(block_height: u64, num_blocks_per_epoch: u32) -> int {
    block_height as int / num_blocks_per_epoch as int
}

/// An accepted transition moves forward: the view number strictly
/// increases and the block height never decreases.
pub open spec fn spec_advances(pre: LightClientState, post: LightClientState) -> bool {
    post.view_num > pre.view_num && post.block_height >= pre.block_height
}

/// Accepted transitions compose: across any sequence of accepted
/// transitions the view number is strictly increasing and the block
/// height is non-decreasing.
pub proof fn lemma_advances_transitive(
    s0: LightClientState,
    s1: LightClientState,
    s2: LightClientState,
)
    requires
        spec_advances(s0, s1),
        spec_advances(s1, s2),
    ensures
        spec_advances(s0, s2),
{
}

/// The epoch-rollover notifications in a log, oldest first.
pub open spec fn spec_epoch_changed_events(s: Seq<LightClientMockEvents>) -> Seq<
    EpochChangedFilter,
>
    decreases s.len(),
{
    if s.len() == 0 {
        Seq::empty()
    } else {
        let rest = spec_epoch_changed_events(s.drop_last());
        match s.last() {
            LightClientMockEvents::EpochChangedFilter(ev) => rest.push(ev),
            _ => rest,
        }
    }
}

/// The initialization notifications in a log, oldest first.
pub open spec fn spec_initialized_events(s: Seq<LightClientMockEvents>) -> Seq<InitializedFilter>
    decreases s.len(),
{
    if s.len() == 0 {
        Seq::empty()
    } else {
        let rest = spec_initialized_events(s.drop_last());
        match s.last() {
            LightClientMockEvents::InitializedFilter(ev) => rest.push(ev),
            _ => rest,
        }
    }
}

/// The state-update notifications in a log, oldest first.
pub open spec fn spec_new_state_events(s: Seq<LightClientMockEvents>) -> Seq<NewStateFilter>
    decreases s.len(),
{
    if s.len() == 0 {
        Seq::empty()
    } else {
        let rest = spec_new_state_events(s.drop_last());
        match s.last() {
            LightClientMockEvents::NewStateFilter(ev) => rest.push(ev),
            _ => rest,
        }
    }
}

/// The ownership-transfer notifications in a log, oldest first.
pub open spec fn spec_ownership_transferred_events(s: Seq<LightClientMockEvents>) -> Seq<
    OwnershipTransferredFilter,
>
    decreases s.len(),
{
    if s.len() == 0 {
        Seq::empty()
    } else {
        let rest = spec_ownership_transferred_events(s.drop_last());
        match s.last() {
            LightClientMockEvents::OwnershipTransferredFilter(ev) => rest.push(ev),
            _ => rest,
        }
    }
}

/// The announced-upgrade notifications in a log, oldest first.
pub open spec fn spec_upgrade_events(s: Seq<LightClientMockEvents>) -> Seq<UpgradeFilter>
    decreases s.len(),
{
    if s.len() == 0 {
        Seq::empty()
    } else {
        let rest = spec_upgrade_events(s.drop_last());
        match s.last() {
            LightClientMockEvents::UpgradeFilter(ev) => rest.push(ev),
            _ => rest,
        }
    }
}

/// The completed-upgrade notifications in a log, oldest first.
pub open spec fn spec_upgraded_events(s: Seq<LightClientMockEvents>) -> Seq<UpgradedFilter>
    decreases s.len(),
{
    if s.len() == 0 {
        Seq::empty()
    } else {
        let rest = spec_upgraded_events(s.drop_last());
        match s.last() {
            LightClientMockEvents::UpgradedFilter(ev) => rest.push(ev),
            _ => rest,
        }
    }
}

/// The verifying key of the transition circuit generated for the
/// validator set with the given stake-table commitment.
pub open spec fn spec_vk(stake_table_comm: U256) -> VerifyingKey {
    VerifyingKey { domain_size: STATE_CIRCUIT_DOMAIN_SIZE, stake_table_comm }
}

/// The light-client state machine.
#[derive(Debug)]
pub struct LightClientMock {
    /// Whether initialization has completed.
    pub initialized: bool,
    /// The owner account; the zero address after renunciation or for a
    /// plain deployment.
    pub owner_account: Address,
    /// The genesis state, immutable once set.
    pub genesis: LightClientState,
    /// The current finalized state, replaced atomically on success.
    pub finalized: LightClientState,
    /// The current epoch index.
    pub epoch: u64,
    /// The number of block heights per epoch; at least one once
    /// initialized.
    pub num_blocks_per_epoch: u32,
    /// Commitment of the validator set voting in the current epoch.
    pub voting_comm: U256,
    /// Commitment of the validator set frozen for the next epoch.
    pub frozen_comm: U256,
    /// Threshold associated with the voting commitment.
    pub voting_thresh: U256,
    /// Threshold associated with the frozen commitment.
    pub frozen_thresh: U256,
    /// The verifying key of the deployed transition circuit, bound to
    /// the stake-table commitment of the validator set it was generated
    /// for.  It is fixed when the instance is created and does not follow
    /// the rotating commitments: once a crossing freezes in a validator
    /// set the key was not generated for, transitions fail with
    /// `WrongPlonkVK` until a new key is deployed.
    pub vk: VerifyingKey,
    /// Per-epoch snapshots: the last finalized state of each closed
    /// epoch, append-only.
    pub snapshots: Vec<(u64, LightClientState)>,
    /// The notification log, append-only.
    pub log: Vec<LightClientMockEvents>,
}

/// The active stake-table commitment for a transition into epoch `e`:
/// the voting commitment inside the current epoch, the frozen one across
/// an epoch boundary.
pub open spec fn spec_active_comm(pre: LightClientMock, e: int) -> U256 {
    if e == pre.epoch {
        pre.voting_comm
    } else {
        pre.frozen_comm
    }
}

/// The verdict of the transition entry point, `None` meaning acceptance.
/// The checks run in this order, and the first failure wins:
/// not initialized; not advancing; a component out of range; an epoch
/// skipped; then the proof verifier's verdict on the public inputs built
/// from the candidate and the active commitment.  Once the monotonicity,
/// range and epoch checks have passed, the call succeeds exactly when
/// the verifier accepts: the candidate's stake-table fields stand in the
/// public inputs, so the proof itself attests them, and no further gate
/// is applied.  At a crossing their digest becomes the new frozen
/// commitment, the validator set frozen for the following epoch.
///
/// Epochs are entered one at a time.  Crossing a boundary records the
/// closing snapshot of the epoch that is left, so boundaries are only
/// ever crossed in order; a candidate that lies more than one epoch
/// ahead asks the machine to leave an epoch whose span was never
/// finalized, and whose boundary snapshot therefore cannot have been
/// recorded.  Such a candidate fails with
/// `MissingLastBlockForCurrentEpoch`, carrying the current epoch's
/// closing height: the latest height the chain must finalize before a
/// later epoch may be entered.
///
/// The verifier is handed the machine's stored key, not one derived from
/// the active commitment, and rejects with `WrongPlonkVK` when the key's
/// stake-table binding is not the commitment the public inputs carry: a
/// proof generated against a different validator set than the currently
/// active one is told apart from a merely invalid proof, so the caller
/// knows to wait for a key deployment rather than regenerate.
pub open spec fn spec_transition_error(
    pre: LightClientMock,
    ns: LightClientState,
    proof: PlonkProof,
) -> Option<LightClientMockErrors> {
    if !pre.initialized {
        Some(LightClientMockErrors::NotInitializing(NotInitializing))
    } else if ns.view_num <= pre.finalized.view_num || ns.block_height
        < pre.finalized.block_height {
        Some(LightClientMockErrors::OutdatedState(OutdatedState))
    } else if !ns.fields_in_range() {
        Some(LightClientMockErrors::InvalidArgs(InvalidArgs))
    } else if spec_epoch_of(ns.block_height, pre.num_blocks_per_epoch) > pre.epoch + 1 {
        Some(
            LightClientMockErrors::MissingLastBlockForCurrentEpoch(
                MissingLastBlockForCurrentEpoch {
                    expected_block_height: ((pre.epoch + 1) * pre.num_blocks_per_epoch
                        - 1) as u64,
                },
            ),
        )
    } else {
        let e = spec_epoch_of(ns.block_height, pre.num_blocks_per_epoch);
        let active = spec_active_comm(pre, e);
        match spec_plonk_verify(pre.vk, spec_public_inputs(ns, active), proof) {
            Ok(u) => None,
            Err(er) => Some(er),
        }
    }
}

impl LightClientMock {
    /// The machine's one internal invariant: once initialized, the epoch
    /// length is positive.
    pub open spec fn wf(self) -> bool {
        self.initialized ==> self.num_blocks_per_epoch >= 1
    }

    /// A fresh, uninitialized instance: everything zero and every table
    /// empty.  `initialize` must run before any transition is accepted.
    pub fn new() -> (r: LightClientMock)
        ensures
            r.wf(),
            !r.initialized,
            r.owner_account.spec_is_zero(),
            r.genesis == spec_zero_state(),
            r.finalized == spec_zero_state(),
            r.epoch == 0,
            r.num_blocks_per_epoch == 0,
            r.voting_comm == (U256 { limb0: 0, limb1: 0, limb2: 0, limb3: 0 }),
            r.frozen_comm == (U256 { limb0: 0, limb1: 0, limb2: 0, limb3: 0 }),
            r.voting_thresh == (U256 { limb0: 0, limb1: 0, limb2: 0, limb3: 0 }),
            r.frozen_thresh == (U256 { limb0: 0, limb1: 0, limb2: 0, limb3: 0 }),
            r.vk == spec_vk(U256 { limb0: 0, limb1: 0, limb2: 0, limb3: 0 }),
            r.snapshots@ == Seq::<(u64, LightClientState)>::empty(),
            r.log@ == Seq::<LightClientMockEvents>::empty(),
    {
        LightClientMock {
            initialized: false,
            owner_account: Address::zero(),
            genesis: LightClientState::zero(),
            finalized: LightClientState::zero(),
            epoch: 0,
            num_blocks_per_epoch: 0,
            voting_comm: U256::zero(),
            frozen_comm: U256::zero(),
            voting_thresh: U256::zero(),
            frozen_thresh: U256::zero(),
            vk: VerifyingKey {
                domain_size: STATE_CIRCUIT_DOMAIN_SIZE,
                stake_table_comm: U256::zero(),
            },
            snapshots: Vec::new(),
            log: Vec::new(),
        }
    }

    /// Creates an instance with its state set directly from the
    /// constructor arguments, without the ownable initialization: the
    /// owner is left at the zero address and nothing is logged.  The
    /// verifying key is the deployed circuit's, generated for the genesis
    /// validator set.
    ///
    /// Fails with `InvalidArgs` when a genesis component is out of range
    /// or the epoch length is zero.
    pub fn deploy(genesis: &LightClientState, num_blocks_per_epoch: u32) -> (r: Result<
        LightClientMock,
        LightClientMockErrors,
    >)
        ensures
            r is Ok <==> genesis.fields_in_range() && num_blocks_per_epoch >= 1,
            r is Err ==> r == Err::<LightClientMock, LightClientMockErrors>(
                LightClientMockErrors::InvalidArgs(InvalidArgs),
            ),
            r matches Ok(m) ==> {
                &&& m.wf()
                &&& m.initialized
                &&& m.owner_account.spec_is_zero()
                &&& m.genesis == *genesis
                &&& m.finalized == *genesis
                &&& m.epoch == 0
                &&& m.num_blocks_per_epoch == num_blocks_per_epoch
                &&& m.voting_comm == spec_stake_table_comm(*genesis)
                &&& m.frozen_comm == spec_stake_table_comm(*genesis)
                &&& m.voting_thresh == genesis.threshold
                &&& m.frozen_thresh == genesis.threshold
                &&& m.vk == spec_vk(spec_stake_table_comm(*genesis))
                &&& m.snapshots@ == Seq::<(u64, LightClientState)>::empty()
                &&& m.log@ == Seq::<LightClientMockEvents>::empty()
            },
    {
        if !genesis.check_fields_in_range() || num_blocks_per_epoch == 0 {
            return Err(LightClientMockErrors::InvalidArgs(InvalidArgs));
        }
        let comm = stake_table_comm(genesis);
        Ok(
            LightClientMock {
                initialized: true,
                owner_account: Address::zero(),
                genesis: *genesis,
                finalized: *genesis,
                epoch: 0,
                num_blocks_per_epoch,
                voting_comm: comm,
                frozen_comm: comm,
                voting_thresh: genesis.threshold,
                frozen_thresh: genesis.threshold,
                vk: VerifyingKey {
                    domain_size: STATE_CIRCUIT_DOMAIN_SIZE,
                    stake_table_comm: comm,
                },
                snapshots: Vec::new(),
                log: Vec::new(),
            },
        )
    }

    /// One-time setup: validates the genesis state and the epoch length,
    /// stores the genesis as the finalized state, derives the initial
    /// stake-table commitment as both voting and frozen commitment,
    /// installs the verifying key generated for the genesis validator
    /// set, and hands ownership to `owner`.
    ///
    /// Fails with `InvalidInitialization` when already initialized, with
    /// `OwnableInvalidOwner` for a zero owner, and with `InvalidArgs`
    /// when a genesis component is out of range or the epoch length is
    /// zero; the failed call changes nothing.
    pub fn initialize(
        &mut self,
        genesis: &LightClientState,
        num_blocks_per_epoch: u32,
        owner: Address,
    ) -> (r: Result<(), LightClientMockErrors>)
        requires
            old(self).wf(),
        ensures
            final(self).wf(),
            old(self).initialized ==> r == Err::<(), LightClientMockErrors>(
                LightClientMockErrors::InvalidInitialization(InvalidInitialization),
            ),
            !old(self).initialized && owner.spec_is_zero() ==> r == Err::<
                (),
                LightClientMockErrors,
            >(LightClientMockErrors::OwnableInvalidOwner(OwnableInvalidOwner { owner })),
            !old(self).initialized && !owner.spec_is_zero() && !(genesis.fields_in_range()
                && num_blocks_per_epoch >= 1) ==> r == Err::<(), LightClientMockErrors>(
                LightClientMockErrors::InvalidArgs(InvalidArgs),
            ),
            r is Err ==> *final(self) == *old(self),
            r is Ok <==> !old(self).initialized && !owner.spec_is_zero()
                && genesis.fields_in_range() && num_blocks_per_epoch >= 1,
            r is Ok ==> {
                &&& final(self).initialized
                &&& final(self).owner_account == owner
                &&& final(self).genesis == *genesis
                &&& final(self).finalized == *genesis
                &&& final(self).epoch == 0
                &&& final(self).num_blocks_per_epoch == num_blocks_per_epoch
                &&& final(self).voting_comm == spec_stake_table_comm(*genesis)
                &&& final(self).frozen_comm == spec_stake_table_comm(*genesis)
                &&& final(self).voting_thresh == genesis.threshold
                &&& final(self).frozen_thresh == genesis.threshold
                &&& final(self).vk == spec_vk(spec_stake_table_comm(*genesis))
                &&& final(self).snapshots@ == old(self).snapshots@
                &&& final(self).log@ == old(self).log@.push(
                    LightClientMockEvents::OwnershipTransferredFilter(
                        OwnershipTransferredFilter {
                            previous_owner: old(self).owner_account,
                            new_owner: owner,
                        },
                    ),
                ).push(
                    LightClientMockEvents::InitializedFilter(InitializedFilter { version: 1 }),
                )
            },
    {
        if self.initialized {
            return Err(LightClientMockErrors::InvalidInitialization(InvalidInitialization));
        }
        if owner.is_zero() {
            return Err(LightClientMockErrors::OwnableInvalidOwner(OwnableInvalidOwner { owner }));
        }
        if !genesis.check_fields_in_range() || num_blocks_per_epoch == 0 {
            return Err(LightClientMockErrors::InvalidArgs(InvalidArgs));
        }
        let comm = stake_table_comm(genesis);
        let previous_owner = self.owner_account;
        self.initialized = true;
        self.owner_account = owner;
        self.genesis = *genesis;
        self.finalized = *genesis;
        self.epoch = 0;
        self.num_blocks_per_epoch = num_blocks_per_epoch;
        self.voting_comm = comm;
        self.frozen_comm = comm;
        self.voting_thresh = genesis.threshold;
        self.frozen_thresh = genesis.threshold;
        self.vk = VerifyingKey {
            domain_size: STATE_CIRCUIT_DOMAIN_SIZE,
            stake_table_comm: comm,
        };
        self.log.push(
            LightClientMockEvents::OwnershipTransferredFilter(
                OwnershipTransferredFilter { previous_owner, new_owner: owner },
            ),
        );
        self.log.push(LightClientMockEvents::InitializedFilter(InitializedFilter { version: 1 }));
        Ok(())
    }

    /// The current finalized state.
    pub fn get_finalized_state(&self) -> (r: LightClientState)
        ensures
            r == self.finalized,
    {
        self.finalized
    }

    /// The genesis state.
    pub fn get_genesis_state(&self) -> (r: LightClientState)
        ensures
            r == self.genesis,
    {
        self.genesis
    }

    /// The current epoch index.
    pub fn current_epoch(&self) -> (r: u64)
        ensures
            r == self.epoch,
    {
        self.epoch
    }

    /// The number of block heights per epoch.
    pub fn blocks_per_epoch(&self) -> (r: u32)
        ensures
            r == self.num_blocks_per_epoch,
    {
        self.num_blocks_per_epoch
    }

    /// The commitment of the validator set voting in the current epoch.
    pub fn voting_stake_table_commitment(&self) -> (r: U256)
        ensures
            r == self.voting_comm,
    {
        self.voting_comm
    }

    /// The commitment of the validator set frozen for the next epoch.
    pub fn frozen_stake_table_commitment(&self) -> (r: U256)
        ensures
            r == self.frozen_comm,
    {
        self.frozen_comm
    }

    /// The threshold associated with the voting commitment.
    pub fn voting_threshold(&self) -> (r: U256)
        ensures
            r == self.voting_thresh,
    {
        self.voting_thresh
    }

    /// The threshold associated with the frozen commitment.
    pub fn frozen_threshold(&self) -> (r: U256)
        ensures
            r == self.frozen_thresh,
    {
        self.frozen_thresh
    }

    /// The owner account.
    pub fn owner(&self) -> (r: Address)
        ensures
            r == self.owner_account,
    {
        self.owner_account
    }

    /// The implementation version: major, minor, patch.
    pub fn get_version(&self) -> (r: (u8, u8, u8))
        ensures
            r == (1u8, 0u8, 0u8),
    {
        (1, 0, 0)
    }

    /// The stake-table commitment of a state; a pure function, exposed
    /// for callers that want to predict commitment rotation.
    pub fn compute_stake_table_comm(&self, state: &LightClientState) -> (r: U256)
        ensures
            r == spec_stake_table_comm(*state),
    {
        stake_table_comm(state)
    }

    /// The snapshot recorded for an epoch, or the all-zero state when the
    /// epoch has none.
    pub fn states(&self, index: u32) -> (r: LightClientState)
        ensures
            r == spec_states(self.snapshots@, index as u64),
    {
        match snapshot_find(&self.snapshots, index as u64) {
            Some(st) => st,
            None => LightClientState::zero(),
        }
    }

    /// Hands ownership to `new_owner`.  Only the owner may call this, and
    /// the zero address is not a valid owner.
    pub fn transfer_ownership(&mut self, caller: Address, new_owner: Address) -> (r: Result<
        (),
        LightClientMockErrors,
    >)
        requires
            old(self).wf(),
        ensures
            final(self).wf(),
            caller != old(self).owner_account ==> r == Err::<(), LightClientMockErrors>(
                LightClientMockErrors::OwnableUnauthorizedAccount(
                    OwnableUnauthorizedAccount { account: caller },
                ),
            ),
            caller == old(self).owner_account && new_owner.spec_is_zero() ==> r == Err::<
                (),
                LightClientMockErrors,
            >(LightClientMockErrors::OwnableInvalidOwner(OwnableInvalidOwner { owner: new_owner })),
            r is Err ==> *final(self) == *old(self),
            r is Ok <==> caller == old(self).owner_account && !new_owner.spec_is_zero(),
            r is Ok ==> {
                &&& final(self).owner_account == new_owner
                &&& final(self).log@ == old(self).log@.push(
                    LightClientMockEvents::OwnershipTransferredFilter(
                        OwnershipTransferredFilter {
                            previous_owner: old(self).owner_account,
                            new_owner,
                        },
                    ),
                )
                &&& final(self).initialized == old(self).initialized
                &&& final(self).genesis == old(self).genesis
                &&& final(self).finalized == old(self).finalized
                &&& final(self).epoch == old(self).epoch
                &&& final(self).num_blocks_per_epoch == old(self).num_blocks_per_epoch
                &&& final(self).voting_comm == old(self).voting_comm
                &&& final(self).frozen_comm == old(self).frozen_comm
                &&& final(self).voting_thresh == old(self).voting_thresh
                &&& final(self).frozen_thresh == old(self).frozen_thresh
                &&& final(self).vk == old(self).vk
                &&& final(self).snapshots@ == old(self).snapshots@
            },
    {
        if !(caller == self.owner_account) {
            return Err(
                LightClientMockErrors::OwnableUnauthorizedAccount(
                    OwnableUnauthorizedAccount { account: caller },
                ),
            );
        }
        if new_owner.is_zero() {
            return Err(
                LightClientMockErrors::OwnableInvalidOwner(OwnableInvalidOwner { owner: new_owner }),
            );
        }
        let previous_owner = self.owner_account;
        self.owner_account = new_owner;
        self.log.push(
            LightClientMockEvents::OwnershipTransferredFilter(
                OwnershipTransferredFilter { previous_owner, new_owner },
            ),
        );
        Ok(())
    }

    /// Renounces ownership: the owner becomes the zero address.  Only the
    /// owner may call this.
    pub fn renounce_ownership(&mut self, caller: Address) -> (r: Result<
        (),
        LightClientMockErrors,
    >)
        requires
            old(self).wf(),
        ensures
            final(self).wf(),
            caller != old(self).owner_account ==> r == Err::<(), LightClientMockErrors>(
                LightClientMockErrors::OwnableUnauthorizedAccount(
                    OwnableUnauthorizedAccount { account: caller },
                ),
            ) && *final(self) == *old(self),
            r is Ok <==> caller == old(self).owner_account,
            r is Ok ==> {
                &&& final(self).owner_account.spec_is_zero()
                &&& final(self).log@ == old(self).log@.push(
                    LightClientMockEvents::OwnershipTransferredFilter(
                        OwnershipTransferredFilter {
                            previous_owner: old(self).owner_account,
                            new_owner: Address { low: 0, mid: 0, high: 0 },
                        },
                    ),
                )
                &&& final(self).initialized == old(self).initialized
                &&& final(self).genesis == old(self).genesis
                &&& final(self).finalized == old(self).finalized
                &&& final(self).epoch == old(self).epoch
                &&& final(self).num_blocks_per_epoch == old(self).num_blocks_per_epoch
                &&& final(self).voting_comm == old(self).voting_comm
                &&& final(self).frozen_comm == old(self).frozen_comm
                &&& final(self).voting_thresh == old(self).voting_thresh
                &&& final(self).frozen_thresh == old(self).frozen_thresh
                &&& final(self).vk == old(self).vk
                &&& final(self).snapshots@ == old(self).snapshots@
            },
    {
        if !(caller == self.owner_account) {
            return Err(
                LightClientMockErrors::OwnableUnauthorizedAccount(
                    OwnableUnauthorizedAccount { account: caller },
                ),
            );
        }
        let previous_owner = self.owner_account;
        self.owner_account = Address::zero();
        self.log.push(
            LightClientMockEvents::OwnershipTransferredFilter(
                OwnershipTransferredFilter { previous_owner, new_owner: Address::zero() },
            ),
        );
        Ok(())
    }

    /// The proxy implementation slot this instance reports.
    pub fn proxiable_uuid(&self) -> (r: U256)
        ensures
            r == (U256 {
                limb0: PROXIABLE_UUID_LIMB_0,
                limb1: PROXIABLE_UUID_LIMB_1,
                limb2: PROXIABLE_UUID_LIMB_2,
                limb3: PROXIABLE_UUID_LIMB_3,
            }),
    {
        U256 {
            limb0: PROXIABLE_UUID_LIMB_0,
            limb1: PROXIABLE_UUID_LIMB_1,
            limb2: PROXIABLE_UUID_LIMB_2,
            limb3: PROXIABLE_UUID_LIMB_3,
        }
    }

    /// Upgrades apply only through a proxy context; this instance is a
    /// direct one, so the call always fails and changes nothing.
    pub fn upgrade_to_and_call(&self, new_implementation: Address, data: &Vec<u8>) -> (r: Result<
        (),
        LightClientMockErrors,
    >)
        ensures
            r == Err::<(), LightClientMockErrors>(
                LightClientMockErrors::UUPSUnauthorizedCallContext(UUPSUnauthorizedCallContext),
            ),
    {
        let _ = new_implementation;
        let _ = data;
        Err(LightClientMockErrors::UUPSUnauthorizedCallContext(UUPSUnauthorizedCallContext))
    }

    /// The version of the upgrade interface.
    pub fn upgrade_interface_version(&self) -> (r: String)
        ensures
            r@ == "5.0.0"@,
    {
        broadcast use vstd::string::group_string_axioms;

        "5.0.0".to_string()
    }

    /// The transition entry point.  Validates that the candidate state
    /// advances past the finalized one, range-checks every component,
    /// enforces the one-epoch-at-a-time rule, builds the public-input
    /// vector from the candidate and the active commitment, and runs the
    /// proof verifier with the stored verifying key; once those checks
    /// have passed, the call succeeds exactly when the verifier accepts.
    /// On acceptance it persists the candidate, and at an epoch boundary
    /// it records the closing snapshot, rotates the frozen commitment
    /// into voting and freezes the candidate's validator set for the
    /// following epoch; the verifying key never rotates, so once the
    /// active set leaves the key's binding the verifier reports the
    /// stale key.  On any failure the call returns the error and leaves
    /// every stored field untouched.
    pub fn new_finalized_state(&mut self, new_state: &LightClientState, proof: &PlonkProof) -> (r:
        Result<(), LightClientMockErrors>)
        requires
            old(self).wf(),
        ensures
            final(self).wf(),
            r is Ok <==> spec_transition_error(*old(self), *new_state, *proof) is None,
            r matches Err(er) ==> Some(er) == spec_transition_error(
                *old(self),
                *new_state,
                *proof,
            ),
            r is Err ==> *final(self) == *old(self),
            r is Ok ==> spec_advances(old(self).finalized, final(self).finalized),
            r is Ok ==> {
                &&& final(self).finalized == *new_state
                &&& final(self).initialized
                &&& final(self).owner_account == old(self).owner_account
                &&& final(self).genesis == old(self).genesis
                &&& final(self).num_blocks_per_epoch == old(self).num_blocks_per_epoch
                &&& final(self).vk == old(self).vk
            },
            r is Ok ==> ({
                let e = spec_epoch_of(new_state.block_height, old(self).num_blocks_per_epoch);
                let update = LightClientMockEvents::NewStateFilter(
                    NewStateFilter {
                        view_num: new_state.view_num,
                        block_height: new_state.block_height,
                        block_comm_root: new_state.block_comm_root,
                    },
                );
                &&& e <= old(self).epoch ==> {
                    &&& final(self).epoch == old(self).epoch
                    &&& final(self).voting_comm == old(self).voting_comm
                    &&& final(self).frozen_comm == old(self).frozen_comm
                    &&& final(self).voting_thresh == old(self).voting_thresh
                    &&& final(self).frozen_thresh == old(self).frozen_thresh
                    &&& final(self).snapshots@ == old(self).snapshots@
                    &&& final(self).log@ == old(self).log@.push(update)
                }
                &&& e > old(self).epoch ==> {
                    &&& final(self).epoch == e as u64
                    &&& final(self).voting_comm == old(self).frozen_comm
                    &&& final(self).voting_thresh == old(self).frozen_thresh
                    &&& final(self).frozen_comm == spec_stake_table_comm(*new_state)
                    &&& final(self).frozen_thresh == new_state.threshold
                    &&& final(self).snapshots@ == spec_snapshot_record(
                        old(self).snapshots@,
                        old(self).epoch,
                        old(self).finalized,
                    )
                    &&& final(self).log@ == old(self).log@.push(
                        LightClientMockEvents::EpochChangedFilter(
                            EpochChangedFilter(e as u64),
                        ),
                    ).push(update)
                }
            }),
    {
        if !self.initialized {
            return Err(LightClientMockErrors::NotInitializing(NotInitializing));
        }
        if new_state.view_num <= self.finalized.view_num || new_state.block_height
            < self.finalized.block_height {
            return Err(LightClientMockErrors::OutdatedState(OutdatedState));
        }
        if !new_state.check_fields_in_range() {
            return Err(LightClientMockErrors::InvalidArgs(InvalidArgs));
        }
        let e = new_state.block_height / (self.num_blocks_per_epoch as u64);
        if e > self.epoch && e - self.epoch > 1 {
            let expected = epoch_closing_height(
                self.epoch,
                self.num_blocks_per_epoch,
                new_state.block_height,
                e,
            );
            return Err(
                LightClientMockErrors::MissingLastBlockForCurrentEpoch(
                    MissingLastBlockForCurrentEpoch { expected_block_height: expected },
                ),
            );
        }
        let active = if e == self.epoch {
            self.voting_comm
        } else {
            self.frozen_comm
        };
        let public_inputs = build_public_inputs(new_state, &active);
        match plonk_verify(&self.vk, &public_inputs, proof) {
            Err(er) => {
                return Err(er);
            },
            Ok(u) => {},
        }
        let old_finalized = self.finalized;
        self.finalized = *new_state;
        if e > self.epoch {
            let closing_epoch = self.epoch;
            snapshot_record(&mut self.snapshots, closing_epoch, old_finalized);
            self.voting_comm = self.frozen_comm;
            self.voting_thresh = self.frozen_thresh;
            self.frozen_comm = stake_table_comm(new_state);
            self.frozen_thresh = new_state.threshold;
            self.epoch = e;
            self.log.push(
                LightClientMockEvents::EpochChangedFilter(EpochChangedFilter(e)),
            );
        }
        self.log.push(
            LightClientMockEvents::NewStateFilter(
                NewStateFilter {
                    view_num: new_state.view_num,
                    block_height: new_state.block_height,
                    block_comm_root: new_state.block_comm_root,
                },
            ),
        );
        Ok(())
    }

    /// Owner-gated override: sets the epoch counter directly, bypassing
    /// every transition check, and logs the change.  For test deployments
    /// only.
    pub fn set_current_epoch(&mut self, caller: Address, new_epoch: u64) -> (r: Result<
        (),
        LightClientMockErrors,
    >)
        requires
            old(self).wf(),
        ensures
            final(self).wf(),
            caller != old(self).owner_account ==> r == Err::<(), LightClientMockErrors>(
                LightClientMockErrors::OwnableUnauthorizedAccount(
                    OwnableUnauthorizedAccount { account: caller },
                ),
            ) && *final(self) == *old(self),
            r is Ok <==> caller == old(self).owner_account,
            r is Ok ==> {
                &&& final(self).epoch == new_epoch
                &&& final(self).log@ == old(self).log@.push(
                    LightClientMockEvents::EpochChangedFilter(EpochChangedFilter(new_epoch)),
                )
                &&& final(self).initialized == old(self).initialized
                &&& final(self).owner_account == old(self).owner_account
                &&& final(self).genesis == old(self).genesis
                &&& final(self).finalized == old(self).finalized
                &&& final(self).num_blocks_per_epoch == old(self).num_blocks_per_epoch
                &&& final(self).voting_comm == old(self).voting_comm
                &&& final(self).frozen_comm == old(self).frozen_comm
                &&& final(self).voting_thresh == old(self).voting_thresh
                &&& final(self).frozen_thresh == old(self).frozen_thresh
                &&& final(self).vk == old(self).vk
                &&& final(self).snapshots@ == old(self).snapshots@
            },
    {
        if !(caller == self.owner_account) {
            return Err(
                LightClientMockErrors::OwnableUnauthorizedAccount(
                    OwnableUnauthorizedAccount { account: caller },
                ),
            );
        }
        self.epoch = new_epoch;
        self.log.push(LightClientMockEvents::EpochChangedFilter(EpochChangedFilter(new_epoch)));
        Ok(())
    }

    /// Owner-gated override: replaces the finalized state wholesale,
    /// bypassing verification, range checks and notifications.  For test
    /// deployments only.
    pub fn set_finalized_state(&mut self, caller: Address, state: &LightClientState) -> (r: Result<
        (),
        LightClientMockErrors,
    >)
        requires
            old(self).wf(),
        ensures
            final(self).wf(),
            caller != old(self).owner_account ==> r == Err::<(), LightClientMockErrors>(
                LightClientMockErrors::OwnableUnauthorizedAccount(
                    OwnableUnauthorizedAccount { account: caller },
                ),
            ) && *final(self) == *old(self),
            r is Ok <==> caller == old(self).owner_account,
            r is Ok ==> {
                &&& final(self).finalized == *state
                &&& final(self).initialized == old(self).initialized
                &&& final(self).owner_account == old(self).owner_account
                &&& final(self).genesis == old(self).genesis
                &&& final(self).epoch == old(self).epoch
                &&& final(self).num_blocks_per_epoch == old(self).num_blocks_per_epoch
                &&& final(self).voting_comm == old(self).voting_comm
                &&& final(self).frozen_comm == old(self).frozen_comm
                &&& final(self).voting_thresh == old(self).voting_thresh
                &&& final(self).frozen_thresh == old(self).frozen_thresh
                &&& final(self).vk == old(self).vk
                &&& final(self).snapshots@ == old(self).snapshots@
                &&& final(self).log@ == old(self).log@
            },
    {
        if !(caller == self.owner_account) {
            return Err(
                LightClientMockErrors::OwnableUnauthorizedAccount(
                    OwnableUnauthorizedAccount { account: caller },
                ),
            );
        }
        self.finalized = *state;
        Ok(())
    }
    /// Every notification recorded so far, oldest first.
    pub fn events(&self) -> (r: Vec<LightClientMockEvents>)
        ensures
            r@ == self.log@,
    {
        let mut r: Vec<LightClientMockEvents> = Vec::new();
        let mut i: usize = 0;
        while i < self.log.len()
            invariant
                0 <= i <= self.log.len(),
                r@ == self.log@.take(i as int),
            decreases self.log.len() - i,
        {
            r.push(self.log[i]);
            proof {
                assert(self.log@.take(i + 1 as int) =~= self.log@.take(i as int).push(
                    self.log@[i as int],
                ));
            }
            i = i + 1;
        }
        proof {
            assert(self.log@.take(self.log@.len() as int) =~= self.log@);
        }
        r
    }

    /// The epoch-rollover notifications recorded so far, oldest first.
    pub fn epoch_changed_filter(&self) -> (r: Vec<EpochChangedFilter>)
        ensures
            r@ == spec_epoch_changed_events(self.log@),
    {
        let mut r: Vec<EpochChangedFilter> = Vec::new();
        let mut i: usize = 0;
        while i < self.log.len()
            invariant
                0 <= i <= self.log.len(),
                r@ == spec_epoch_changed_events(self.log@.take(i as int)),
            decreases self.log.len() - i,
        {
            proof {
                assert(self.log@.take(i + 1 as int).drop_last() =~= self.log@.take(i as int));
                assert(self.log@.take(i + 1 as int).last() == self.log@[i as int]);
            }
            match self.log[i] {
                LightClientMockEvents::EpochChangedFilter(ev) => {
                    r.push(ev);
                },
                _ => {},
            }
            i = i + 1;
        }
        proof {
            assert(self.log@.take(self.log@.len() as int) =~= self.log@);
        }
        r
    }

    /// The initialization notifications recorded so far, oldest first.
    pub fn initialized_filter(&self) -> (r: Vec<InitializedFilter>)
        ensures
            r@ == spec_initialized_events(self.log@),
    {
        let mut r: Vec<InitializedFilter> = Vec::new();
        let mut i: usize = 0;
        while i < self.log.len()
            invariant
                0 <= i <= self.log.len(),
                r@ == spec_initialized_events(self.log@.take(i as int)),
            decreases self.log.len() - i,
        {
            proof {
                assert(self.log@.take(i + 1 as int).drop_last() =~= self.log@.take(i as int));
                assert(self.log@.take(i + 1 as int).last() == self.log@[i as int]);
            }
            match self.log[i] {
                LightClientMockEvents::InitializedFilter(ev) => {
                    r.push(ev);
                },
                _ => {},
            }
            i = i + 1;
        }
        proof {
            assert(self.log@.take(self.log@.len() as int) =~= self.log@);
        }
        r
    }

    /// The state-update notifications recorded so far, oldest first.
    pub fn new_state_filter(&self) -> (r: Vec<NewStateFilter>)
        ensures
            r@ == spec_new_state_events(self.log@),
    {
        let mut r: Vec<NewStateFilter> = Vec::new();
        let mut i: usize = 0;
        while i < self.log.len()
            invariant
                0 <= i <= self.log.len(),
                r@ == spec_new_state_events(self.log@.take(i as int)),
            decreases self.log.len() - i,
        {
            proof {
                assert(self.log@.take(i + 1 as int).drop_last() =~= self.log@.take(i as int));
                assert(self.log@.take(i + 1 as int).last() == self.log@[i as int]);
            }
            match self.log[i] {
                LightClientMockEvents::NewStateFilter(ev) => {
                    r.push(ev);
                },
                _ => {},
            }
            i = i + 1;
        }
        proof {
            assert(self.log@.take(self.log@.len() as int) =~= self.log@);
        }
        r
    }

    /// The ownership-transfer notifications recorded so far, oldest
    /// first.
    pub fn ownership_transferred_filter(&self) -> (r: Vec<OwnershipTransferredFilter>)
        ensures
            r@ == spec_ownership_transferred_events(self.log@),
    {
        let mut r: Vec<OwnershipTransferredFilter> = Vec::new();
        let mut i: usize = 0;
        while i < self.log.len()
            invariant
                0 <= i <= self.log.len(),
                r@ == spec_ownership_transferred_events(self.log@.take(i as int)),
            decreases self.log.len() - i,
        {
            proof {
                assert(self.log@.take(i + 1 as int).drop_last() =~= self.log@.take(i as int));
                assert(self.log@.take(i + 1 as int).last() == self.log@[i as int]);
            }
            match self.log[i] {
                LightClientMockEvents::OwnershipTransferredFilter(ev) => {
                    r.push(ev);
                },
                _ => {},
            }
            i = i + 1;
        }
        proof {
            assert(self.log@.take(self.log@.len() as int) =~= self.log@);
        }
        r
    }

    /// The announced-upgrade notifications recorded so far, oldest
    /// first.
    pub fn upgrade_filter(&self) -> (r: Vec<UpgradeFilter>)
        ensures
            r@ == spec_upgrade_events(self.log@),
    {
        let mut r: Vec<UpgradeFilter> = Vec::new();
        let mut i: usize = 0;
        while i < self.log.len()
            invariant
                0 <= i <= self.log.len(),
                r@ == spec_upgrade_events(self.log@.take(i as int)),
            decreases self.log.len() - i,
        {
            proof {
                assert(self.log@.take(i + 1 as int).drop_last() =~= self.log@.take(i as int));
                assert(self.log@.take(i + 1 as int).last() == self.log@[i as int]);
            }
            match self.log[i] {
                LightClientMockEvents::UpgradeFilter(ev) => {
                    r.push(ev);
                },
                _ => {},
            }
            i = i + 1;
        }
        proof {
            assert(self.log@.take(self.log@.len() as int) =~= self.log@);
        }
        r
    }

    /// The completed-upgrade notifications recorded so far, oldest
    /// first.
    pub fn upgraded_filter(&self) -> (r: Vec<UpgradedFilter>)
        ensures
            r@ == spec_upgraded_events(self.log@),
    {
        let mut r: Vec<UpgradedFilter> = Vec::new();
        let mut i: usize = 0;
        while i < self.log.len()
            invariant
                0 <= i <= self.log.len(),
                r@ == spec_upgraded_events(self.log@.take(i as int)),
            decreases self.log.len() - i,
        {
            proof {
                assert(self.log@.take(i + 1 as int).drop_last() =~= self.log@.take(i as int));
                assert(self.log@.take(i + 1 as int).last() == self.log@[i as int]);
            }
            match self.log[i] {
                LightClientMockEvents::UpgradedFilter(ev) => {
                    r.push(ev);
                },
                _ => {},
            }
            i = i + 1;
        }
        proof {
            assert(self.log@.take(self.log@.len() as int) =~= self.log@);
        }
        r
    }
}

/// The last block height of the current epoch: the height the
/// one-epoch-at-a-time rule expects the chain to finalize before a later
/// epoch may be entered.
fn epoch_closing_height(epoch: u64, num_blocks_per_epoch: u32, block_height: u64, e: u64) -> (r:
    u64)
    requires
        num_blocks_per_epoch >= 1,
        e == block_height as int / num_blocks_per_epoch as int,
        e > epoch + 1,
    ensures
        r == ((epoch + 1) * num_blocks_per_epoch - 1) as u64,
{
    let c128: u128 = epoch as u128;
    let nb128: u128 = num_blocks_per_epoch as u128;
    proof {
        assert((c128 + 1) * nb128 <= 0x1_0000_0000_0000_0000 * 0x1_0000_0000 && (c128 + 1) * nb128
            >= 1) by (nonlinear_arith)
            requires
                c128 <= 0xFFFF_FFFF_FFFF_FFFF,
                1 <= nb128 <= 0xFFFF_FFFF,
        ;
        let bh = block_height as int;
        let nb = num_blocks_per_epoch as int;
        let q = e as int;
        let c = epoch as int;
        vstd::arithmetic::div_mod::lemma_fundamental_div_mod(bh, nb);
        vstd::arithmetic::div_mod::lemma_mod_bound(bh, nb);
        let rm = bh % nb;
        assert((c + 1) * nb - 1 <= bh) by (nonlinear_arith)
            requires
                bh == q * nb + rm,
                rm >= 0,
                q >= c + 2,
                nb >= 1,
        ;
    }
    let expected128: u128 = (c128 + 1) * nb128 - 1;
    expected128 as u64
}

proof fn lemma_snapshot_find_step(s: Seq<(u64, LightClientState)>, epoch: u64, i: int)
    requires
        0 <= i < s.len(),
        s[i].0 != epoch,
    ensures
        spec_snapshot_find(s.skip(i), epoch) == spec_snapshot_find(s.skip(i + 1), epoch),
{
    assert(s.skip(i).len() > 0);
    assert(s.skip(i)[0] == s[i]);
    assert(s.skip(i).skip(1) =~= s.skip(i + 1));
}

/// Linear lookup of the first snapshot recorded for an epoch.
fn snapshot_find(v: &Vec<(u64, LightClientState)>, epoch: u64) -> (r: Option<LightClientState>)
    ensures
        r == spec_snapshot_find(v@, epoch),
{
    proof {
        assert(v@.skip(0) =~= v@);
    }
    let mut i: usize = 0;
    while i < v.len()
        invariant
            0 <= i <= v.len(),
            spec_snapshot_find(v@, epoch) == spec_snapshot_find(v@.skip(i as int), epoch),
        decreases v.len() - i,
    {
        if v[i].0 == epoch {
            proof {
                assert(v@.skip(i as int).len() > 0);
                assert(v@.skip(i as int)[0] == v@[i as int]);
            }
            return Some(v[i].1);
        }
        proof {
            lemma_snapshot_find_step(v@, epoch, i as int);
        }
        i = i + 1;
    }
    proof {
        assert(v@.skip(i as int) =~= Seq::<(u64, LightClientState)>::empty());
    }
    None
}

/// Records a snapshot for an epoch unless one already exists.
fn snapshot_record(v: &mut Vec<(u64, LightClientState)>, epoch: u64, st: LightClientState)
    ensures
        final(v)@ == spec_snapshot_record(old(v)@, epoch, st),
{
    let existing = snapshot_find(v, epoch);
    if existing.is_none() {
        v.push((epoch, st));
    }
}

} // verus!
