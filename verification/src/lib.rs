//! Hierarchical-deterministic key derivation and Schnorr signing over durable
//! root seeds.
//!
//! A root seed is stored once per key name. From it the library derives
//! tenant-scoped child keys along a derivation path, returns public keys and
//! signs 32-byte digests, counting every signature it hands out.

pub mod keys;
pub mod path;
pub mod service;
pub mod signer;
pub mod store;
pub mod types;

pub use service::get_random_seed;
pub use service::init;
pub use service::schnorr_public_key;
pub use service::sign_with_schnorr;
pub use store::State;
pub use store::StableMemory;
pub use types::Error;
pub use types::Metrics;
pub use types::SchnorrKeyId;
pub use types::SchnorrKeyIds;
pub use types::SchnorrPublicKey;
pub use types::SchnorrPublicKeyReply;
pub use types::SignWithSchnorr;
pub use types::SignWithSchnorrReply;
