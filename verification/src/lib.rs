//! Verification workflow for linking a messaging-platform identity to an
//! external game-service account.
//!
//! The library holds the verified core: the guard policy that gates the
//! privileged commands, the challenge-code generator, the classification of
//! the external profile lookup, the verification-record store semantics, and
//! the workflow state machine that ties them together. Network and database
//! plumbing lives outside the library and feeds it plain values.

pub mod challenge;
pub mod guard;
pub mod profile;
pub mod settings;
pub mod store;
pub mod workflow;

pub use guard::LOWEST_ID;
