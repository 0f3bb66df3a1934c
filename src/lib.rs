//! Cross-chain NFT provenance and transfer protocol.
//!
//! The library keeps the records of one ledger (global counters, the gateway
//! chain registry, per-token records, write-once origin records, transfer
//! records and ownership verifications) and implements every operation on them
//! as a verified state transition.
pub mod hashing;
pub mod constants;
pub mod errors;
pub mod state;
pub mod registry;
pub mod keyed;
pub mod program;
pub mod instructions;
pub mod laws;
