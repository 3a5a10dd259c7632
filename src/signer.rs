//! The signing and verifying capabilities, which each provider implements.

use crate::error::Error;
use vstd::prelude::*;

verus! {

/// Makes signatures of type `S` over messages.
pub trait Signer<S> {
    /// The signature of `msg` under this signer's private key.
    fn sign(&self, msg: &[u8]) -> Result<S, Error>;
}

/// Checks signatures of type `S` against messages.
pub trait Verifier<S> {
    /// `Ok` if `signature` is a valid signature of `msg` under this
    /// verifier's public key; otherwise a `SignatureInvalid` error, which
    /// never tells why.
    fn verify(&self, msg: &[u8], signature: &S) -> Result<(), Error>;
}

/// Signers built from a seed.
pub trait FromSeed: Sized {
    /// A signer for the key pair derived from `seed`.
    fn from_seed(seed: crate::ed25519::Seed) -> Self;
}

/// Signers built from a PKCS#8 encoded private key.
pub trait FromPkcs8: Sized {
    /// A signer for the encoded key; bytes that do not parse are an invalid
    /// key.
    fn from_pkcs8(pkcs8_bytes: &[u8]) -> Result<Self, Error>;
}

} // verus!
