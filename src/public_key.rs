//! Capabilities around public keys, shared by every provider.

use crate::error::Error;
use vstd::prelude::*;

verus! {

/// Which encoding of a public key a caller asks for. Curves whose points
/// have a single encoding (Ed25519) return that one whatever is asked.
#[derive(Copy, Clone, Debug, PartialEq, Eq, Structural)]
pub enum KeyImage {
    /// One field element and a sign bit.
    Compressed,
    /// Two field elements.
    Uncompressed,
}

/// Common trait of all public keys.
pub trait PublicKey: Sized + Eq + Ord + core::fmt::Debug {

}

/// Signers that know their public key (implemented by each provider).
pub trait PublicKeyed<K: PublicKey> {
    /// The public key that verifies the signatures this signer makes.
    fn public_key(&self, key_image: KeyImage) -> Result<K, Error>;
}

} // verus!
