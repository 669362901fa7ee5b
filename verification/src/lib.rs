//! Coordination logic for proof tasks requested through an on-chain registry.
//!
//! The crate holds the decisions of the coordinator: which events concern this
//! node, how calldata is laid out, how a proof submission is digested and
//! compared with a finalized record, and how polling for that record ends.
//! Network, database and timer work is left to the caller.

pub mod prover_type;
pub mod bytes;
pub mod hashing;
pub mod hex;
pub mod events;
pub mod models;
pub mod records;
pub mod store;
pub mod polling;
pub mod reconciler;
pub mod abi;
pub mod dispatcher;
pub mod coordinator;
pub mod logs;
