//! A light-client state machine that advances a finalized consensus state
//! (view number, block height, commitment roots, stake-table commitments,
//! voting threshold) epoch by epoch, accepting a candidate state only
//! together with a succinct proof that passes the verifier's checks.
//!
//! The crate is organised bottom up:
//! - [`field`] holds the 256-bit word type used for field elements and
//!   commitment digests, with range checks against the proof system's
//!   scalar and base field moduli;
//! - [`digest`] is the deterministic mixing digest behind the stake-table
//!   commitment and the verifier transcript;
//! - [`state`], [`plonk`], [`errors`] and [`events`] define the data
//!   model;
//! - [`commitment`] derives the stake-table commitment;
//! - [`verify`] checks a proof against a verifying key and public inputs;
//! - [`machine`] is the state machine itself, the sole owner and writer
//!   of all persistent state.

pub mod field;
pub mod digest;
pub mod errors;
pub mod events;
pub mod state;
pub mod plonk;
pub mod commitment;
pub mod verify;
pub mod machine;

pub use errors::LightClientMockErrors;
pub use events::LightClientMockEvents;
pub use machine::LightClientMock;
