//! Ed25519 seeds: the secret from which a key pair is derived.

use crate::bytes::copy_to_array;
use crate::error::{Error, ErrorKind};
use vstd::prelude::*;

verus! {

/// Size of an Ed25519 seed in bytes.
pub const SEED_SIZE: usize = 32;

/// An Ed25519 seed: 32 bytes of secret key material. Its length is checked
/// when it is built, so a provider takes it as it is.
#[derive(Clone)]
pub struct Seed(pub [u8; 32]);

impl View for Seed {
    type V = Seq<u8>;

    open spec fn view(&self) -> Seq<u8> {
        self.0@
    }
}

impl Seed {
    /// A seed from a 32-byte array.
    pub fn new(bytes: [u8; 32]) -> (r: Seed)
        ensures
            r.0 == bytes,
    {
        Seed(bytes)
    }

    /// A seed from a byte slice, which must hold exactly 32 bytes.
    pub fn from_bytes(bytes: &[u8]) -> (r: Result<Seed, Error>)
        ensures
            r is Ok <==> bytes@.len() == SEED_SIZE,
            r matches Ok(s) ==> s@ == bytes@,
            r matches Err(e) ==> e.kind == ErrorKind::KeyInvalid,
    {
        if bytes.len() != SEED_SIZE {
            return Err(Error::new(ErrorKind::KeyInvalid));
        }
        Ok(Seed(copy_to_array(bytes)))
    }

    /// The secret bytes of the seed.
    pub fn as_secret_slice(&self) -> (r: &[u8])
        ensures
            r@ == self@,
    {
        self.0.as_slice()
    }
}

} // verus!
