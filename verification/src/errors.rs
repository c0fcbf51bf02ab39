//! The error taxonomy of the light client.
//!
//! Every failure of a call is terminal for that call and leaves the stored
//! state untouched; the variant tells the caller whether to fix its input
//! (`InvalidArgs`, `InvalidPolyEvalArgs`, `UnsupportedDegree`), to catch up
//! with chain progress (`OutdatedState`, `MissingLastBlockForCurrentEpoch`),
//! to produce a fresh proof (`InvalidProof`, `WrongPlonkVK`), or that the
//! call misused the lifecycle or the access control
//! (`InvalidInitialization`, `NotInitializing`, the ownable and proxy
//! errors).  A few variants exist only as vocabulary of the protocol's
//! error surface: no function of this crate raises them.

use vstd::prelude::*;
use crate::field::U256;
use crate::state::Address;

verus! {

/// A delegate call target carries no code.
#[derive(Clone, Copy, PartialEq, Eq, Structural, Debug)]
pub struct AddressEmptyCode {
    pub target: Address,
}

/// A proposed implementation is not a valid upgrade target.
#[derive(Clone, Copy, PartialEq, Eq, Structural, Debug)]
pub struct ERC1967InvalidImplementation {
    pub implementation: Address,
}

/// Value was attached to a proxy operation that takes none.
#[derive(Clone, Copy, PartialEq, Eq, Structural, Debug)]
pub struct ERC1967NonPayable;

/// A nested call performed during an upgrade failed.
#[derive(Clone, Copy, PartialEq, Eq, Structural, Debug)]
pub struct FailedInnerCall;

/// A caller-supplied argument is malformed: a field element out of range,
/// or a zero epoch length.
#[derive(Clone, Copy, PartialEq, Eq, Structural, Debug)]
pub struct InvalidArgs;

/// The instance is already initialized.
#[derive(Clone, Copy, PartialEq, Eq, Structural, Debug)]
pub struct InvalidInitialization;

/// The public-input vector is malformed: wrong length, or an entry that is
/// not a canonical scalar-field element.
#[derive(Clone, Copy, PartialEq, Eq, Structural, Debug)]
pub struct InvalidPolyEvalArgs;

/// The proof is malformed or the verification identity does not hold.
#[derive(Clone, Copy, PartialEq, Eq, Structural, Debug)]
pub struct InvalidProof;

/// Epochs are entered one at a time, and each crossing records the
/// closing snapshot of the epoch it leaves.  A candidate more than one
/// epoch ahead of the current one asks to leave an epoch whose boundary
/// snapshot was never recorded; the carried height is the current
/// epoch's closing block, the latest height the chain must finalize
/// before a later epoch may be entered.
#[derive(Clone, Copy, PartialEq, Eq, Structural, Debug)]
pub struct MissingLastBlockForCurrentEpoch {
    pub expected_block_height: u64,
}

/// The instance has not completed initialization.
#[derive(Clone, Copy, PartialEq, Eq, Structural, Debug)]
pub struct NotInitializing;

/// The candidate state does not advance past the finalized state.
#[derive(Clone, Copy, PartialEq, Eq, Structural, Debug)]
pub struct OutdatedState;

/// The proposed owner is not a valid owner (the zero address).
#[derive(Clone, Copy, PartialEq, Eq, Structural, Debug)]
pub struct OwnableInvalidOwner {
    pub owner: Address,
}

/// The caller is not the owner.
#[derive(Clone, Copy, PartialEq, Eq, Structural, Debug)]
pub struct OwnableUnauthorizedAccount {
    pub account: Address,
}

/// An upgrade entry point was reached outside a proxy context.
#[derive(Clone, Copy, PartialEq, Eq, Structural, Debug)]
pub struct UUPSUnauthorizedCallContext;

/// The proxy slot reported by an upgrade target is not the expected one.
#[derive(Clone, Copy, PartialEq, Eq, Structural, Debug)]
pub struct UUPSUnsupportedProxiableUUID {
    pub slot: U256,
}

/// The verifying key's evaluation domain is not supported.
#[derive(Clone, Copy, PartialEq, Eq, Structural, Debug)]
pub struct UnsupportedDegree;

/// The verifying key is not bound to the stake-table commitment the
/// public inputs carry: the proof was generated against a different
/// validator set than the currently active one, so resubmitting cannot
/// help until a key for the active set is deployed.
#[derive(Clone, Copy, PartialEq, Eq, Structural, Debug)]
pub struct WrongPlonkVK;

/// A stake table other than the expected one was used.  Part of the
/// protocol's error vocabulary; this machine's transition leaves the
/// candidate's stake-table fields to the proof, which attests them as
/// public inputs, and never raises this error itself.
#[derive(Clone, Copy, PartialEq, Eq, Structural, Debug)]
pub struct WrongStakeTableUsed;

/// Container for every error the light client can raise.
#[derive(Clone, Copy, PartialEq, Eq, Structural, Debug)]
pub enum LightClientMockErrors {
    AddressEmptyCode(AddressEmptyCode),
    ERC1967InvalidImplementation(ERC1967InvalidImplementation),
    ERC1967NonPayable(ERC1967NonPayable),
    FailedInnerCall(FailedInnerCall),
    InvalidArgs(InvalidArgs),
    InvalidInitialization(InvalidInitialization),
    InvalidPolyEvalArgs(InvalidPolyEvalArgs),
    InvalidProof(InvalidProof),
    MissingLastBlockForCurrentEpoch(MissingLastBlockForCurrentEpoch),
    NotInitializing(NotInitializing),
    OutdatedState(OutdatedState),
    OwnableInvalidOwner(OwnableInvalidOwner),
    OwnableUnauthorizedAccount(OwnableUnauthorizedAccount),
    UUPSUnauthorizedCallContext(UUPSUnauthorizedCallContext),
    UUPSUnsupportedProxiableUUID(UUPSUnsupportedProxiableUUID),
    UnsupportedDegree(UnsupportedDegree),
    WrongPlonkVK(WrongPlonkVK),
    WrongStakeTableUsed(WrongStakeTableUsed),
}

} // verus!
