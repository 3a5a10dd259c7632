//! Ed25519 public keys.

use crate::bytes::{bytes_equal, copy_to_array};
use crate::encoding::{colon_delimited_hex, colon_hex_text, decoded, encoded, Encoding};
use crate::error::{Error, ErrorKind};
use vstd::prelude::*;

verus! {

/// Size of an Ed25519 public key in bytes (256 bits).
pub const PUBLIC_KEY_SIZE: usize = 32;

/// An Ed25519 public key: its compressed Edwards-y form, 32 bytes.
#[derive(Copy, Clone, Debug, Eq, PartialOrd, Ord, Hash)]
pub struct PublicKey(pub [u8; 32]);

impl View for PublicKey {
    type V = Seq<u8>;

    open spec fn view(&self) -> Seq<u8> {
        self.0@
    }
}

impl PartialEq for PublicKey {
    fn eq(&self, other: &PublicKey) -> (r: bool) {
        bytes_equal(self.0.as_slice(), other.0.as_slice())
    }
}

impl vstd::std_specs::cmp::PartialEqSpecImpl for PublicKey {
    open spec fn obeys_eq_spec() -> bool {
        true
    }

    open spec fn eq_spec(&self, other: &PublicKey) -> bool {
        self@ == other@
    }
}

impl PublicKey {
    /// A public key from a 32-byte array.
    pub fn new(bytes: [u8; 32]) -> (r: PublicKey)
        ensures
            r.0 == bytes,
    {
        PublicKey(bytes)
    }

    /// A public key from its serialized form: exactly 32 bytes.
    pub fn from_bytes(bytes: &[u8]) -> (r: Result<PublicKey, Error>)
        ensures
            r is Ok <==> bytes@.len() == PUBLIC_KEY_SIZE,
            r matches Ok(k) ==> k@ == bytes@,
            r matches Err(e) ==> e.kind == ErrorKind::KeyInvalid,
    {
        if bytes.len() != PUBLIC_KEY_SIZE {
            return Err(Error::new(ErrorKind::KeyInvalid));
        }
        let key: [u8; 32] = copy_to_array(bytes);
        Ok(PublicKey(key))
    }

    /// Decodes a public key from text in the given encoding (e.g. hex,
    /// Base64). Text that is not in the encoding, or that does not decode to
    /// exactly 32 bytes, is an invalid key.
    pub fn decode(encoded_key: &[u8], encoding: Encoding) -> (r: Result<PublicKey, Error>)
        ensures
            r is Ok <==> (decoded(encoding, encoded_key@) matches Some(b) && b.len()
                == PUBLIC_KEY_SIZE),
            r matches Ok(k) ==> decoded(encoding, encoded_key@) == Some(k@),
            r matches Err(e) ==> e.kind == ErrorKind::KeyInvalid,
    {
        let bytes = encoding.decode_vec(encoded_key)?;
        PublicKey::from_bytes(bytes.as_slice())
    }

    /// Encodes the key's 32 bytes as text in the given encoding.
    pub fn encode(&self, encoding: Encoding) -> (r: Vec<u8>)
        ensures
            r@ == encoded(encoding, self@),
            decoded(encoding, r@) == Some(self@),
    {
        encoding.encode_vec(self.0.as_slice())
    }

    /// The key as text for humans: its bytes in colon-delimited lower-case
    /// hexadecimal.
    pub fn to_colon_hex(&self) -> (r: Vec<u8>)
        ensures
            r@ == colon_hex_text(self@),
    {
        colon_delimited_hex(self.0.as_slice())
    }

    /// The key's bytes as a slice.
    pub fn as_slice(&self) -> (r: &[u8])
        ensures
            r@ == self@,
    {
        self.0.as_slice()
    }

    /// The key's bytes.
    pub fn as_bytes(&self) -> (r: &[u8; 32])
        ensures
            *r == self.0,
    {
        &self.0
    }

    /// The key's bytes, by value.
    pub fn into_bytes(self) -> (r: [u8; 32])
        ensures
            r == self.0,
    {
        self.0
    }
}

impl AsRef<[u8]> for PublicKey {
    fn as_ref(&self) -> (r: &[u8])
        ensures
            r@ == self@,
    {
        self.0.as_slice()
    }
}

impl crate::public_key::PublicKey for PublicKey {

}

/// Round trip: for every key and every encoding, `decode` of the text that
/// `encode` returned for the key gives back that key. The premises are the
/// two functions' postconditions on those calls.
pub proof fn lemma_decode_encode_round_trip(
    key: PublicKey,
    encoding: Encoding,
    text: Seq<u8>,
    r: Result<PublicKey, Error>,
)
    requires
        text == encoded(encoding, key@),
        decoded(encoding, text) == Some(key@),
        r is Ok <==> (decoded(encoding, text) matches Some(b) && b.len() == PUBLIC_KEY_SIZE),
        r matches Ok(k) ==> decoded(encoding, text) == Some(k@),
    ensures
        r == Ok::<PublicKey, Error>(key),
{
    let k = r->Ok_0;
    assert(k.0@ == key.0@);
    assert(k.0 =~= key.0);
}

} // verus!
