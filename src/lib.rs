//! Digital-signature capabilities (public keys, signers, verifiers) with an
//! Ed25519 provider built on *ring*.

mod bytes;
pub mod ed25519;
pub mod encoding;
pub mod error;
pub mod public_key;
pub mod ring_ed25519;
pub mod ring_keypair;
pub mod signer;

pub use public_key::{KeyImage, PublicKeyed};
pub use signer::{FromPkcs8, FromSeed, Signer, Verifier};
