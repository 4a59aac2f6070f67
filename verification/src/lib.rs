//! An instant sealing engine: a block is authored whenever a trigger fires,
//! and every externally received block is accepted unconditionally.
//! Suitable only for single-node development networks.
//!
//! The decision logic of the engine lives here: when a trigger must lead to a
//! proposal attempt, how a cycle moves from chain selection through proposal
//! to import, what an engine-authored import directive holds, and how the
//! import-handle lock serializes concurrent cycles. The surrounding driver
//! (channels, asynchronous waits, the collaborator handles) performs the
//! actions this library decides on.

pub mod locks;
pub mod pipeline;
pub mod rpc;
pub mod shim;
pub mod trivial_verifier;
pub mod types;
