//! A single mutual-exclusion lock shared by a fixed whitelist of identities.
//!
//! The transition rules are pure functions from the current persisted state,
//! the caller and the current height to the next state, or an error that
//! leaves the state as it was. Loading and committing the state is left to
//! the host.

pub mod addr;
pub mod state;
pub mod error;
pub mod event;
pub mod msg;
pub mod contract;
pub mod laws;
