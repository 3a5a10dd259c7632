//! Ed25519 key and signature values.

pub mod public_key;
pub mod seed;
pub mod signature;

pub use public_key::{PublicKey, PUBLIC_KEY_SIZE};
pub use seed::{Seed, SEED_SIZE};
pub use signature::{Signature, SIGNATURE_SIZE};
