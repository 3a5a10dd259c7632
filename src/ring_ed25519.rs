//! The Ed25519 signer and verifier of the *ring* provider.

use crate::ed25519::{PublicKey, Seed, Signature};
use crate::error::{Error, ErrorKind};
use crate::public_key::{KeyImage, PublicKeyed};
use crate::signer::{FromPkcs8, FromSeed, Signer, Verifier};
use crate::ring_keypair::{
    ed25519_accepts, ed25519_public_key, ed25519_signature, ed25519_verify, keypair_from_pkcs8,
    keypair_from_seed, keypair_public_key, keypair_sign, pkcs8_accepted, pkcs8_seed, RingKeyPair,
};
use vstd::prelude::*;

verus! {

/// Ed25519 signer of the *ring* provider. It owns the key pair; the private
/// key never leaves it.
pub struct Ed25519Signer {
    keypair: RingKeyPair,
    public_key: PublicKey,
}

impl Ed25519Signer {
    /// The signer holds the public key of its seed.
    #[verifier::type_invariant]
    closed spec fn inv(&self) -> bool {
        self.public_key@ == ed25519_public_key(self.keypair.seed())
    }

    /// The seed of this signer's key pair.
    pub closed spec fn seed_of(&self) -> Seq<u8> {
        self.keypair.seed()
    }

    /// The public key that this signer reports.
    pub closed spec fn public_key_of(&self) -> PublicKey {
        self.public_key
    }

    /// A signer for a key pair that *ring* built.
    fn from_keypair(keypair: RingKeyPair) -> (r: Ed25519Signer)
        ensures
            r.seed_of() == keypair.seed(),
            r.public_key_of()@ == ed25519_public_key(keypair.seed()),
    {
        let bytes = keypair_public_key(&keypair);
        match PublicKey::from_bytes(bytes.as_slice()) {
            Ok(public_key) => Ed25519Signer { keypair, public_key },
            Err(_) => vstd::pervasive::unreached(),
        }
    }
}

impl FromSeed for Ed25519Signer {
    /// A signer for the key pair derived from an unexpanded seed.
    fn from_seed(seed: Seed) -> (r: Ed25519Signer)
        ensures
            r.seed_of() == seed@,
            r.public_key_of()@ == ed25519_public_key(seed@),
    {
        match keypair_from_seed(seed.as_secret_slice()) {
            Ok(keypair) => Ed25519Signer::from_keypair(keypair),
            Err(_) => vstd::pervasive::unreached(),
        }
    }
}

impl FromPkcs8 for Ed25519Signer {
    /// A signer for a PKCS#8 encoded private key: it holds the key pair of
    /// the seed that the document encodes.
    fn from_pkcs8(pkcs8_bytes: &[u8]) -> (r: Result<Ed25519Signer, Error>)
        ensures
            r is Ok <==> pkcs8_accepted(pkcs8_bytes@),
            r matches Ok(s) ==> s.seed_of() == pkcs8_seed(pkcs8_bytes@) && s.seed_of().len() == 32
                && s.public_key_of()@ == ed25519_public_key(pkcs8_seed(pkcs8_bytes@)),
            r matches Err(e) ==> e.kind == ErrorKind::KeyInvalid,
    {
        match keypair_from_pkcs8(pkcs8_bytes) {
            Ok(keypair) => Ok(Ed25519Signer::from_keypair(keypair)),
            Err(_) => Err(Error::new(ErrorKind::KeyInvalid)),
        }
    }
}

impl PublicKeyed<PublicKey> for Ed25519Signer {
    /// The signer's public key: the one derived from its seed. Ed25519 keys
    /// have one encoding, which is returned whatever image is asked for.
    fn public_key(&self, key_image: KeyImage) -> (r: Result<PublicKey, Error>)
        ensures
            r == Ok::<PublicKey, Error>(self.public_key_of()),
            self.public_key_of()@ == ed25519_public_key(self.seed_of()),
    {
        proof {
            use_type_invariant(self);
        }
        Ok(self.public_key)
    }
}

impl Signer<Signature> for Ed25519Signer {
    /// The deterministic Ed25519 signature of `msg`, which verifies under
    /// the signer's public key; it never fails.
    fn sign(&self, msg: &[u8]) -> (r: Result<Signature, Error>)
        ensures
            r matches Ok(s) && s@ == ed25519_signature(self.seed_of(), msg@) && ed25519_accepts(
                self.public_key_of()@,
                msg@,
                s@,
            ),
    {
        proof {
            use_type_invariant(self);
        }
        let bytes = keypair_sign(&self.keypair, msg);
        match Signature::from_bytes(bytes.as_slice()) {
            Ok(signature) => Ok(signature),
            Err(_) => vstd::pervasive::unreached(),
        }
    }
}

/// Two signers with the same seed, however each was built (from the seed or
/// from a PKCS#8 document), report the same public key. The premises are what
/// `public_key` ensures of the two calls.
pub proof fn lemma_public_key_depends_on_seed(
    s1: &Ed25519Signer,
    s2: &Ed25519Signer,
    r1: Result<PublicKey, Error>,
    r2: Result<PublicKey, Error>,
)
    requires
        s1.seed_of() == s2.seed_of(),
        r1 == Ok::<PublicKey, Error>(s1.public_key_of()),
        s1.public_key_of()@ == ed25519_public_key(s1.seed_of()),
        r2 == Ok::<PublicKey, Error>(s2.public_key_of()),
        s2.public_key_of()@ == ed25519_public_key(s2.seed_of()),
    ensures
        r1 is Ok,
        r1 == r2,
{
    assert(s1.public_key_of().0 =~= s2.public_key_of().0);
}

/// Signing is deterministic: the same signer, or two signers with the same
/// seed however built, sign a message to bit-identical signatures. The
/// premises are what `sign` ensures of the two calls.
pub proof fn lemma_sign_deterministic(
    s1: &Ed25519Signer,
    s2: &Ed25519Signer,
    msg: Seq<u8>,
    r1: Result<Signature, Error>,
    r2: Result<Signature, Error>,
)
    requires
        s1.seed_of() == s2.seed_of(),
        r1 matches Ok(a) && a@ == ed25519_signature(s1.seed_of(), msg),
        r2 matches Ok(b) && b@ == ed25519_signature(s2.seed_of(), msg),
    ensures
        r1 is Ok,
        r1 == r2,
{
    assert(r1->Ok_0.0 =~= r2->Ok_0.0);
}

/// A signature that a signer made verifies under the public key it reports:
/// the premises are what `public_key`, `sign` and `verify` (of a verifier
/// holding that key, on that message and signature) ensure.
pub proof fn lemma_sign_then_verify(
    signer: &Ed25519Signer,
    msg: Seq<u8>,
    key: Result<PublicKey, Error>,
    signature: Result<Signature, Error>,
    verified: Result<(), Error>,
)
    requires
        key == Ok::<PublicKey, Error>(signer.public_key_of()),
        signature matches Ok(s) && ed25519_accepts(signer.public_key_of()@, msg, s@),
        verified is Ok <==> ed25519_accepts(key->Ok_0@, msg, signature->Ok_0@),
    ensures
        verified is Ok,
{
}

/// Ed25519 verifier of the *ring* provider: it holds a public key.
#[derive(Copy, Clone, Debug, Eq)]
pub struct Ed25519Verifier(pub PublicKey);

impl PartialEq for Ed25519Verifier {
    fn eq(&self, other: &Ed25519Verifier) -> (r: bool) {
        self.0 == other.0
    }
}

impl vstd::std_specs::cmp::PartialEqSpecImpl for Ed25519Verifier {
    open spec fn obeys_eq_spec() -> bool {
        true
    }

    open spec fn eq_spec(&self, other: &Ed25519Verifier) -> bool {
        self.0@ == other.0@
    }
}

impl Ed25519Verifier {
    /// A verifier for `public_key`.
    pub fn new(public_key: PublicKey) -> (r: Ed25519Verifier)
        ensures
            r.0 == public_key,
    {
        Ed25519Verifier(public_key)
    }
}

impl<'a> From<&'a PublicKey> for Ed25519Verifier {
    fn from(public_key: &'a PublicKey) -> (r: Ed25519Verifier) {
        Ed25519Verifier(*public_key)
    }
}

impl<'a> vstd::std_specs::convert::FromSpecImpl<&'a PublicKey> for Ed25519Verifier {
    open spec fn obeys_from_spec() -> bool {
        true
    }

    open spec fn from_spec(public_key: &'a PublicKey) -> Ed25519Verifier {
        Ed25519Verifier(*public_key)
    }
}

impl Verifier<Signature> for Ed25519Verifier {
    /// `Ok` exactly when `signature` is a valid Ed25519 signature of `msg`
    /// under the held key; every other outcome is `SignatureInvalid`.
    fn verify(&self, msg: &[u8], signature: &Signature) -> (r: Result<(), Error>)
        ensures
            r is Ok <==> ed25519_accepts(self.0@, msg@, signature@),
            r matches Err(e) ==> e.kind == ErrorKind::SignatureInvalid,
    {
        match ed25519_verify(self.0.as_slice(), msg, signature.0.as_slice()) {
            Ok(()) => Ok(()),
            Err(_) => Err(Error::new(ErrorKind::SignatureInvalid)),
        }
    }
}

} // verus!
