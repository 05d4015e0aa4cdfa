//! Transaction consensus verification for a Zcash-style chain.
//!
//! The crate models transactions across all format versions together with the
//! consensus rules that decide whether a transaction may enter the chain:
//! structural checks, expiry rules, duplicate-spend detection, version gating
//! by network upgrade, and the coinbase-specific restrictions.  Expensive
//! cryptographic work (script execution, signatures, zero-knowledge proofs,
//! note decryption) is delegated to external oracles; the orchestration logic
//! that plans those oracle calls and folds their outcomes into a final
//! accept/reject decision is part of this crate and fully specified.

pub mod amount;
pub mod batch;
pub mod block;
pub mod bytes;
pub mod check;
pub mod dedup;
pub mod error;
pub mod fixtures;
pub mod hash;
pub mod laws;
pub mod orchard;
pub mod parameters;
pub mod primitives;
pub mod sapling;
pub mod sprout;
pub mod transaction;
pub mod transparent;
pub mod txid;
pub mod verify;
