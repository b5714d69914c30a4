//! A permissioned program registry: a singleton `Factory` per namespace
//! originates named program entries, each addressed by a deterministic
//! composite key derived from its owner's identity and name. Entries carry
//! descriptive metadata, an opaque payload, and a deployment flag; only the
//! recorded owner may update or deploy an entry.
//!
//! The surrounding execution environment supplies caller identities, the
//! current time, and address salts, and persists records between calls; it is
//! modeled here by plain parameters and by the `Registry` map of records.

pub mod errors;
pub mod identity;
pub mod limits;
pub mod factory;
pub mod program;
pub mod registry;
pub mod laws;

pub use errors::ErrorCode;
pub use identity::Identity;
pub use factory::Factory;
pub use program::Program;
pub use registry::{EntryAddress, Registry};
