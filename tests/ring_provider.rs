use signatory::ed25519::{PublicKey, Seed, Signature};
use signatory::error::{Error, ErrorKind};
use signatory::ring_ed25519::{Ed25519Signer, Ed25519Verifier};
use signatory::{FromPkcs8, FromSeed, KeyImage, PublicKeyed, Signer, Verifier};

fn unhex(s: &str) -> Vec<u8> {
    (0..s.len() / 2)
        .map(|i| u8::from_str_radix(&s[2 * i..2 * i + 2], 16).unwrap())
        .collect()
}

const RFC8032_SEED: &str = "9d61b19deffd5a60ba844af492ec2cc44449c5697b326919703bac031cae7f60";
const RFC8032_PUBLIC: &str = "d75a980182b10ab7d54bfed3c964073a0ee172f3daa62325af021a68f707511a";

fn seed_of(hex: &str) -> Seed {
    Seed::from_bytes(&unhex(hex)).ok().unwrap()
}

fn pkcs8_v2(seed: &[u8], public: &[u8]) -> Vec<u8> {
    let mut out = unhex("3053020101300506032b657004220420");
    out.extend_from_slice(seed);
    out.extend_from_slice(&unhex("a123032100"));
    out.extend_from_slice(public);
    out
}

#[test]
fn from_seed_derives_known_public_key() {
    let signer = Ed25519Signer::from_seed(seed_of(RFC8032_SEED));
    let key = signer.public_key(KeyImage::Compressed).unwrap();
    assert_eq!(&key.as_bytes()[..], &unhex(RFC8032_PUBLIC)[..]);
}

#[test]
fn public_key_is_deterministic() {
    let seed = [42u8; 32];
    let signer = Ed25519Signer::from_seed(Seed::new(seed));
    let a = signer.public_key(KeyImage::Compressed).unwrap();
    let b = signer.public_key(KeyImage::Compressed).unwrap();
    let c = Ed25519Signer::from_seed(Seed::new(seed))
        .public_key(KeyImage::Compressed)
        .unwrap();
    assert_eq!(a, b);
    assert_eq!(a, c);
}

#[test]
fn public_key_ignores_key_image() {
    let signer = Ed25519Signer::from_seed(seed_of(RFC8032_SEED));
    assert_eq!(
        signer.public_key(KeyImage::Uncompressed),
        signer.public_key(KeyImage::Compressed)
    );
}

#[test]
fn from_pkcs8_accepts_well_formed_key() {
    let doc = pkcs8_v2(&unhex(RFC8032_SEED), &unhex(RFC8032_PUBLIC));
    let signer = Ed25519Signer::from_pkcs8(&doc).ok().unwrap();
    let key = signer.public_key(KeyImage::Compressed).unwrap();
    assert_eq!(&key.as_bytes()[..], &unhex(RFC8032_PUBLIC)[..]);
}

#[test]
fn from_pkcs8_accepts_ring_generated_form() {
    let mut doc = unhex("3051020101300506032b657004220420adc1a49ee8c95d3e212058aa4d45");
    doc.extend(unhex("84bedd7735d1efe9ca7c63a2050eb9f1aa498121005809e9fef6dcec58f0"));
    doc.extend(unhex("f2e3b0d67e9880a11957e083ace85835c3b6c8fbaf6b7d"));
    let signer = Ed25519Signer::from_pkcs8(&doc).ok().unwrap();
    let key = signer.public_key(KeyImage::Compressed).unwrap();
    assert_eq!(
        &key.as_bytes()[..],
        &unhex("5809e9fef6dcec58f0f2e3b0d67e9880a11957e083ace85835c3b6c8fbaf6b7d")[..]
    );
}

#[test]
fn from_pkcs8_rejects_malformed_input() {
    let good = pkcs8_v2(&unhex(RFC8032_SEED), &unhex(RFC8032_PUBLIC));
    let mut wrong_public = good.clone();
    let last = wrong_public.len() - 1;
    wrong_public[last] ^= 1;
    let cases: Vec<Vec<u8>> = vec![
        vec![],
        vec![0u8; 10],
        b"not a key at all".to_vec(),
        good[..good.len() - 1].to_vec(),
        unhex(RFC8032_SEED),
        wrong_public,
    ];
    for doc in cases.iter() {
        match Ed25519Signer::from_pkcs8(doc) {
            Ok(_) => panic!("accepted malformed PKCS#8"),
            Err(e) => assert_eq!(e, Error::new(ErrorKind::KeyInvalid)),
        }
    }
}

#[test]
fn sign_then_verify_succeeds() {
    let seeds = [[0u8; 32], [1u8; 32], [0xffu8; 32]];
    let messages: [&[u8]; 4] = [b"", b"a", b"test message", &[0u8; 1000]];
    for seed in seeds.iter() {
        let signer = Ed25519Signer::from_seed(Seed::new(*seed));
        let verifier = Ed25519Verifier::from(&signer.public_key(KeyImage::Compressed).unwrap());
        for msg in messages.iter() {
            let sig = signer.sign(msg).unwrap();
            assert_eq!(verifier.verify(msg, &sig), Ok(()));
        }
    }
}

#[test]
fn flipping_any_signature_bit_fails_verification() {
    let signer = Ed25519Signer::from_seed(seed_of(RFC8032_SEED));
    let verifier = Ed25519Verifier::new(signer.public_key(KeyImage::Compressed).unwrap());
    let msg = b"tamper detection";
    let sig = signer.sign(msg).unwrap();
    for byte in 0..64 {
        for bit in 0..8 {
            let mut bytes = sig.into_bytes();
            bytes[byte] ^= 1 << bit;
            let r = verifier.verify(msg, &Signature::new(bytes));
            assert_eq!(r, Err(Error::new(ErrorKind::SignatureInvalid)), "byte {} bit {}", byte, bit);
        }
    }
}

#[test]
fn zero_seed_signs_deterministically_and_rejects_other_message() {
    let signer = Ed25519Signer::from_seed(Seed::new([0u8; 32]));
    let first = signer.sign(b"test message").unwrap();
    let second = signer.sign(b"test message").unwrap();
    assert_eq!(first, second);
    assert_ne!(&first.as_bytes()[..], &[0u8; 64][..]);
    let verifier = Ed25519Verifier::from(&signer.public_key(KeyImage::Compressed).unwrap());
    assert_eq!(verifier.verify(b"test message", &first), Ok(()));
    assert_eq!(
        verifier.verify(b"Test message", &first).map_err(|e| e.kind()),
        Err(ErrorKind::SignatureInvalid)
    );
}

#[test]
fn verify_rejects_signature_under_other_key() {
    let signer = Ed25519Signer::from_seed(Seed::new([5u8; 32]));
    let other = Ed25519Signer::from_seed(Seed::new([6u8; 32]));
    let sig = signer.sign(b"hello").unwrap();
    let verifier = Ed25519Verifier::new(other.public_key(KeyImage::Compressed).unwrap());
    assert_eq!(verifier.verify(b"hello", &sig), Err(Error::new(ErrorKind::SignatureInvalid)));
}

#[test]
fn verify_rejects_invalid_public_key_and_zero_signature() {
    let verifier = Ed25519Verifier::new(PublicKey::new([0xffu8; 32]));
    let r = verifier.verify(b"x", &Signature::new([0u8; 64]));
    assert_eq!(r, Err(Error::new(ErrorKind::SignatureInvalid)));
}

#[test]
fn verifier_from_key_holds_that_key() {
    let key = PublicKey::new([8u8; 32]);
    let a = Ed25519Verifier::from(&key);
    let b = Ed25519Verifier::new(key);
    assert_eq!(a, b);
    assert_eq!(a.0, key);
    assert_ne!(a, Ed25519Verifier::new(PublicKey::new([9u8; 32])));
}

#[test]
fn pkcs8_signer_matches_seed_signer() {
    let doc = pkcs8_v2(&unhex(RFC8032_SEED), &unhex(RFC8032_PUBLIC));
    let from_doc = Ed25519Signer::from_pkcs8(&doc).ok().unwrap();
    let from_seed = Ed25519Signer::from_seed(seed_of(RFC8032_SEED));
    assert_eq!(
        from_doc.public_key(KeyImage::Compressed),
        from_seed.public_key(KeyImage::Compressed)
    );
    for msg in [&b""[..], &b"abc"[..]] {
        let a = from_doc.sign(msg).unwrap();
        assert_eq!(a, from_seed.sign(msg).unwrap());
        let v = Ed25519Verifier::from(&from_doc.public_key(KeyImage::Compressed).unwrap());
        assert_eq!(v.verify(msg, &a), Ok(()));
    }
}
