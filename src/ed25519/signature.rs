//! Ed25519 signatures.

use crate::bytes::{bytes_equal, copy_to_array};
use crate::error::{Error, ErrorKind};
use vstd::prelude::*;

verus! {

/// Size of an Ed25519 signature in bytes.
pub const SIGNATURE_SIZE: usize = 64;

/// An Ed25519 signature: 64 bytes, with no meaning beyond them.
#[derive(Copy, Clone, Debug, Eq, Hash)]
pub struct Signature(pub [u8; 64]);

impl View for Signature {
    type V = Seq<u8>;

    open spec fn view(&self) -> Seq<u8> {
        self.0@
    }
}

impl PartialEq for Signature {
    fn eq(&self, other: &Signature) -> (r: bool) {
        bytes_equal(self.0.as_slice(), other.0.as_slice())
    }
}

impl vstd::std_specs::cmp::PartialEqSpecImpl for Signature {
    open spec fn obeys_eq_spec() -> bool {
        true
    }

    open spec fn eq_spec(&self, other: &Signature) -> bool {
        self@ == other@
    }
}

impl Signature {
    /// A signature from a 64-byte array.
    pub fn new(bytes: [u8; 64]) -> (r: Signature)
        ensures
            r.0 == bytes,
    {
        Signature(bytes)
    }

    /// A signature from a byte slice, which must hold exactly 64 bytes.
    pub fn from_bytes(bytes: &[u8]) -> (r: Result<Signature, Error>)
        ensures
            r is Ok <==> bytes@.len() == SIGNATURE_SIZE,
            r matches Ok(s) ==> s@ == bytes@,
            r matches Err(e) ==> e.kind == ErrorKind::SignatureInvalid,
    {
        if bytes.len() != SIGNATURE_SIZE {
            return Err(Error::new(ErrorKind::SignatureInvalid));
        }
        Ok(Signature(copy_to_array(bytes)))
    }

    /// The signature's bytes.
    pub fn as_bytes(&self) -> (r: &[u8; 64])
        ensures
            *r == self.0,
    {
        &self.0
    }

    /// The signature's bytes, by value.
    pub fn into_bytes(self) -> (r: [u8; 64])
        ensures
            r == self.0,
    {
        self.0
    }
}

} // verus!
