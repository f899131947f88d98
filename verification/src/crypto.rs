//! The cryptographic primitives the protocols are built from, as calls into the RustCrypto and
//! dalek crates. Their results are named here; the few algebraic facts the protocols rely on are
//! stated beside the calls that produce them, as the crates document them.

use vstd::prelude::*;

use chacha20poly1305::aead::Aead;
use chacha20poly1305::{KeyInit, XChaCha20Poly1305, XNonce};
use curve25519_dalek::edwards::CompressedEdwardsY;
use ed25519_dalek::{Signature, SigningKey, Verifier, VerifyingKey};
use hkdf::Hkdf;
use rand_core::{OsRng, RngCore};
use sha2::{Digest, Sha256, Sha384, Sha512};
use x25519_dalek::{PublicKey, StaticSecret};

verus! {

/// SHA-256 of a byte string.
pub uninterp spec fn sha256(data: Seq<u8>) -> Seq<u8>;

/// SHA-512 of a byte string.
pub uninterp spec fn sha512(data: Seq<u8>) -> Seq<u8>;

/// SHA-384 of a byte string.
pub uninterp spec fn sha384(data: Seq<u8>) -> Seq<u8>;

/// Whether `signature` is a valid Ed25519 signature of `message` under the public key `public`.
pub uninterp spec fn ed25519_signature_valid(public: Seq<u8>, message: Seq<u8>, signature: Seq<u8>) -> bool;

/// Whether 32 bytes are the compressed form of a point on the Edwards curve.
pub uninterp spec fn edwards_point_valid(compressed: Seq<u8>) -> bool;

/// The Montgomery u-coordinate of a compressed Edwards point (Ed25519 public key to X25519).
pub uninterp spec fn edwards_to_montgomery(compressed: Seq<u8>) -> Seq<u8>;

/// The Ed25519 public key of a 32-byte secret seed.
pub uninterp spec fn ed25519_public(seed: Seq<u8>) -> Seq<u8>;

/// The X25519 public key of a 32-byte secret.
pub uninterp spec fn x25519_public(secret: Seq<u8>) -> Seq<u8>;

/// The X25519 shared secret of a 32-byte secret and a 32-byte public key.
pub uninterp spec fn x25519_shared(secret: Seq<u8>, public: Seq<u8>) -> Seq<u8>;

/// HKDF-SHA256 without salt, expanded to 32 bytes under `info`.
pub uninterp spec fn hkdf_sha256(ikm: Seq<u8>, info: Seq<char>) -> Seq<u8>;

/// XChaCha20-Poly1305 ciphertext (with tag) of `plaintext` under `key` and `nonce`, no AAD.
pub uninterp spec fn xchacha_seal(key: Seq<u8>, nonce: Seq<u8>, plaintext: Seq<u8>) -> Seq<u8>;

/// XChaCha20-Poly1305 decryption: the plaintext, or `None` when the tag does not verify.
pub uninterp spec fn xchacha_open(key: Seq<u8>, nonce: Seq<u8>, ciphertext: Seq<u8>) -> Option<
    Seq<u8>,
>;

/// The byte view of an optional vector.
pub open spec fn bytes_option(o: Option<Vec<u8>>) -> Option<Seq<u8>> {
    match o {
        Some(v) => Some(v@),
        None => None,
    }
}

/// X25519 secret clamping: clear the low three bits, clear bit 255, set bit 254.
pub open spec fn clamp(s: Seq<u8>) -> Seq<u8> {
    s.update(0, s[0] & 248u8).update(31, (s[31] & 127u8) | 64u8)
}

/// Plaintexts below this length are accepted by XChaCha20-Poly1305 (`u32::MAX` blocks of 64 bytes).
pub open spec fn aead_max_plaintext() -> nat {
    274877906880
}

/// `Sha256::digest`; a SHA-256 digest is 32 bytes.
#[verifier::external_body]
pub fn sha256_bytes(data: &[u8]) -> (r: Vec<u8>)
    ensures
        r@ == sha256(data@),
        r@.len() == 32,
{
    Sha256::digest(data).to_vec()
}

/// `Sha512::digest`; a SHA-512 digest is 64 bytes.
#[verifier::external_body]
pub fn sha512_bytes(data: &[u8]) -> (r: Vec<u8>)
    ensures
        r@ == sha512(data@),
        r@.len() == 64,
{
    Sha512::digest(data).to_vec()
}

/// `Sha384::digest`.
#[verifier::external_body]
pub fn sha384_bytes(data: &[u8]) -> (r: [u8; 48])
    ensures
        r@ == sha384(data@),
{
    Sha384::digest(data).into()
}

/// `VerifyingKey::from_bytes` then `Verifier::verify` of a 64-byte signature: `None` exactly when
/// the key bytes are not a curve point (the key is refused before any signature is checked),
/// otherwise whether the signature verifies.
#[verifier::external_body]
pub fn ed25519_verify(public: &[u8; 32], message: &[u8], signature: &[u8; 64]) -> (r: Option<bool>)
    ensures
        r is Some <==> edwards_point_valid(public@),
        r matches Some(ok) ==> ok == ed25519_signature_valid(public@, message@, signature@),
{
    match VerifyingKey::from_bytes(public) {
        Ok(key) => Some(key.verify(message, &Signature::from_bytes(signature)).is_ok()),
        Err(_) => None,
    }
}

/// `CompressedEdwardsY::decompress` followed by `EdwardsPoint::to_montgomery`: `None` exactly when
/// the bytes are not a curve point.
#[verifier::external_body]
pub fn edwards_to_x25519(compressed: &[u8; 32]) -> (r: Option<[u8; 32]>)
    ensures
        r is Some <==> edwards_point_valid(compressed@),
        r matches Some(x) ==> x@ == edwards_to_montgomery(compressed@),
{
    match CompressedEdwardsY(*compressed).decompress() {
        Some(point) => Some(point.to_montgomery().to_bytes()),
        None => None,
    }
}

/// `SigningKey::from_bytes(seed).verifying_key()`. As ed25519-dalek documents for
/// `VerifyingKey::to_montgomery` and `SigningKey::to_scalar_bytes`, the key is a curve point whose
/// Montgomery form is the X25519 public key of the first half of SHA-512(seed); X25519 clamps
/// that half before use, so its clamped form has the same public key.
#[verifier::external_body]
pub fn ed25519_public_key(seed: &[u8; 32]) -> (r: [u8; 32])
    ensures
        r@ == ed25519_public(seed@),
        edwards_point_valid(r@),
        edwards_to_montgomery(r@) == x25519_public(sha512(seed@).subrange(0, 32)),
        edwards_to_montgomery(r@) == x25519_public(clamp(sha512(seed@).subrange(0, 32))),
{
    SigningKey::from_bytes(seed).verifying_key().to_bytes()
}

/// `PublicKey::from(&StaticSecret::from(secret))`. The secret is clamped before use, so clamping it
/// beforehand does not change the key.
#[verifier::external_body]
pub fn x25519_public_key(secret: &[u8; 32]) -> (r: [u8; 32])
    ensures
        r@ == x25519_public(secret@),
        r@ == x25519_public(clamp(secret@)),
{
    PublicKey::from(&StaticSecret::from(*secret)).to_bytes()
}

/// `StaticSecret::from(secret).diffie_hellman(&PublicKey::from(public))`. The secret is clamped
/// before use, and both parties of an exchange obtain the same shared secret.
#[verifier::external_body]
pub fn x25519_agree(secret: &[u8; 32], public: &[u8; 32]) -> (r: [u8; 32])
    ensures
        r@ == x25519_shared(secret@, public@),
        r@ == x25519_shared(clamp(secret@), public@),
        forall|other: Seq<u8>|
            other.len() == 32 && public@ == #[trigger] x25519_public(other) ==> r@
                == x25519_shared(other, x25519_public(secret@)),
{
    *StaticSecret::from(*secret).diffie_hellman(&PublicKey::from(*public)).as_bytes()
}

/// `Hkdf::<Sha256>::new(None, ikm).expand(info, ..)` into 32 bytes, a length HKDF-SHA256 always
/// accepts.
#[verifier::external_body]
pub fn hkdf_sha256_32(ikm: &[u8], info: &str) -> (r: [u8; 32])
    ensures
        r@ == hkdf_sha256(ikm@, info@),
{
    let mut okm = [0u8; 32];
    match Hkdf::<Sha256>::new(None, ikm).expand(info.as_bytes(), &mut okm) {
        Ok(()) => okm,
        Err(_) => okm,
    }
}

/// `XChaCha20Poly1305::encrypt`: the ciphertext followed by the 16-byte tag, which decryption under
/// the same key and nonce opens again; it is refused only for plaintexts of `u32::MAX` blocks or
/// more.
#[verifier::external_body]
pub fn xchacha_encrypt(key: &[u8; 32], nonce: &[u8], plaintext: &[u8]) -> (r: Option<Vec<u8>>)
    requires
        nonce@.len() == 24,
    ensures
        plaintext@.len() < aead_max_plaintext() ==> r is Some,
        r matches Some(c) ==> c@ == xchacha_seal(key@, nonce@, plaintext@) && c@.len()
            == plaintext@.len() + 16 && xchacha_open(key@, nonce@, c@) == Some(plaintext@),
{
    XChaCha20Poly1305::new(key.into()).encrypt(XNonce::from_slice(nonce), plaintext).ok()
}

/// `XChaCha20Poly1305::decrypt`: the plaintext when the tag verifies; what was sealed under the
/// same key and nonce opens to its plaintext, and only such a ciphertext opens (re-encrypting the
/// plaintext gives the same ciphertext and the tag that was verified).
#[verifier::external_body]
pub fn xchacha_decrypt(key: &[u8; 32], nonce: &[u8], ciphertext: &[u8]) -> (r: Option<Vec<u8>>)
    requires
        nonce@.len() == 24,
    ensures
        bytes_option(r) == xchacha_open(key@, nonce@, ciphertext@),
        r matches Some(p) ==> ciphertext@ == xchacha_seal(key@, nonce@, p@),
        forall|p: Seq<u8>|
            p.len() < aead_max_plaintext() && ciphertext@ == #[trigger] xchacha_seal(key@, nonce@, p)
                ==> bytes_option(r) == Some(p),
{
    XChaCha20Poly1305::new(key.into()).decrypt(XNonce::from_slice(nonce), ciphertext).ok()
}

/// `len` bytes from the operating system's random number generator.
#[verifier::external_body]
pub fn random_bytes(len: usize) -> (r: Vec<u8>)
    ensures
        r@.len() == len,
{
    let mut bytes = vec![0u8; len];
    OsRng.fill_bytes(&mut bytes);
    bytes
}

} // verus!
