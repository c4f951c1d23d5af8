//! A decentralized-identifier registry. It maps account identities to DID
//! documents, re-keys that mapping by transfer, keeps a write-once alias
//! dictionary, and gates every mutation behind an authorization policy of
//! two tiers: a self-only set of trusted source accounts, each of which may
//! write identity mappings on others' behalf.

pub mod account;
pub mod errors;
pub mod laws;
pub mod registry;
pub mod store;

pub use errors::RegistryError;
pub use registry::CoretoDID;
