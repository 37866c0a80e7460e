//! Locating a tagged compute instance and bringing it to the running state.
//!
//! The library holds the decisions: which inventory records carry the
//! required tags, what power state a provider status stands for, and what the
//! reconciliation loop does next after each answer from the provider. The
//! caller performs the provider calls, reads the clock and sleeps.

pub mod error;
pub mod filter;
pub mod guarantees;
pub mod inventory;
pub mod reconcile;
pub mod request;
pub mod response;
pub mod state;
