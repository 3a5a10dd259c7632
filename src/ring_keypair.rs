//! *ring*'s Ed25519 key pair, together with a model of the seed it holds.

use ring::signature::{Ed25519KeyPair, KeyPair, VerificationAlgorithm};
use vstd::prelude::*;

verus! {

#[verifier::external_type_specification]
#[verifier::external_body]
pub struct ExEd25519KeyPair(ring::signature::Ed25519KeyPair);

#[verifier::external_type_specification]
#[verifier::external_body]
pub struct ExKeyRejected(ring::error::KeyRejected);

#[verifier::external_type_specification]
#[verifier::external_body]
pub struct ExUnspecified(ring::error::Unspecified);

/// The public key that *ring* derives from a 32-byte seed (RFC 8032).
pub uninterp spec fn ed25519_public_key(seed: Seq<u8>) -> Seq<u8>;

/// The deterministic signature that *ring* makes of `msg` with the key pair
/// of `seed` (RFC 8032).
pub uninterp spec fn ed25519_signature(seed: Seq<u8>, msg: Seq<u8>) -> Seq<u8>;

/// Whether *ring*'s `Ed25519KeyPair::from_pkcs8` accepts `pkcs8`: a PKCS#8 v2
/// Ed25519 private key whose public key matches its seed.
pub uninterp spec fn pkcs8_accepted(pkcs8: Seq<u8>) -> bool;

/// The seed that *ring*'s `Ed25519KeyPair::from_pkcs8` reads from `pkcs8`.
pub uninterp spec fn pkcs8_seed(pkcs8: Seq<u8>) -> Seq<u8>;

/// Whether *ring*'s Ed25519 verification accepts `signature` of `msg` under
/// `public_key`.
pub uninterp spec fn ed25519_accepts(public_key: Seq<u8>, msg: Seq<u8>, signature: Seq<u8>) -> bool;

/// *ring*'s key pair and the seed it was built from. Only the constructors
/// below set the seed, from what they handed to *ring*.
pub struct RingKeyPair {
    keypair: Ed25519KeyPair,
    seed: Ghost<Seq<u8>>,
}

impl RingKeyPair {
    /// The seed of the key pair.
    pub closed spec fn seed(&self) -> Seq<u8> {
        self.seed@
    }
}

/// Relies on `Ed25519KeyPair::from_seed_unchecked`: it rejects a seed only
/// when it is not 32 bytes long, and otherwise holds the key pair of `seed`.
#[verifier::external_body]
pub fn keypair_from_seed(seed: &[u8]) -> (r: Result<RingKeyPair, ring::error::KeyRejected>)
    ensures
        r is Ok <==> seed@.len() == 32,
        r matches Ok(k) ==> k.seed() == seed@,
{
    match Ed25519KeyPair::from_seed_unchecked(seed) {
        Ok(keypair) => Ok(RingKeyPair { keypair, seed: Ghost(seed@) }),
        Err(e) => Err(e),
    }
}

/// Relies on `Ed25519KeyPair::from_pkcs8`: whether it accepts depends on the
/// bytes alone, and what it accepts holds the key pair of the 32-byte seed
/// that the document encodes.
#[verifier::external_body]
pub fn keypair_from_pkcs8(pkcs8: &[u8]) -> (r: Result<RingKeyPair, ring::error::KeyRejected>)
    ensures
        r is Ok <==> pkcs8_accepted(pkcs8@),
        r matches Ok(k) ==> k.seed() == pkcs8_seed(pkcs8@) && k.seed().len() == 32,
{
    match Ed25519KeyPair::from_pkcs8(pkcs8) {
        Ok(keypair) => Ok(RingKeyPair { keypair, seed: Ghost(pkcs8_seed(pkcs8@)) }),
        Err(e) => Err(e),
    }
}

/// Relies on `KeyPair::public_key` of `Ed25519KeyPair`: the 32-byte public
/// key derived from the seed.
#[verifier::external_body]
pub fn keypair_public_key(keypair: &RingKeyPair) -> (r: Vec<u8>)
    ensures
        r@ == ed25519_public_key(keypair.seed()),
        r@.len() == 32,
{
    keypair.keypair.public_key().as_ref().to_vec()
}

/// Relies on `Ed25519KeyPair::sign`: the 64-byte deterministic signature of
/// `msg`, which Ed25519 verification accepts under the key pair's public key.
#[verifier::external_body]
pub fn keypair_sign(keypair: &RingKeyPair, msg: &[u8]) -> (r: Vec<u8>)
    ensures
        r@ == ed25519_signature(keypair.seed(), msg@),
        r@.len() == 64,
        ed25519_accepts(ed25519_public_key(keypair.seed()), msg@, r@),
{
    keypair.keypair.sign(msg).as_ref().to_vec()
}

/// Relies on `VerificationAlgorithm::verify` of `ring::signature::ED25519`:
/// `Ok` exactly when the signature is valid; a public key that is not 32
/// bytes or a signature that is not 64 bytes is never valid.
#[verifier::external_body]
pub fn ed25519_verify(public_key: &[u8], msg: &[u8], signature: &[u8]) -> (r: Result<
    (),
    ring::error::Unspecified,
>)
    ensures
        r is Ok <==> ed25519_accepts(public_key@, msg@, signature@),
        public_key@.len() != 32 ==> r is Err,
        signature@.len() != 64 ==> r is Err,
{
    ring::signature::ED25519.verify(
        untrusted::Input::from(public_key),
        untrusted::Input::from(msg),
        untrusted::Input::from(signature),
    )
}

} // verus!
