//! Client-side end-to-end encryption, protocol `near-v2`.
//!
//! The client holds an Ed25519 key pair and publishes the public key. To encrypt to a model, the
//! model's Ed25519 public key is converted to X25519, an ephemeral X25519 key agrees on a shared
//! secret, HKDF-SHA256 (no salt, info `ed25519_encryption`) derives a 32-byte key and
//! XChaCha20-Poly1305 (random 24-byte nonce, no AAD) seals the plaintext. The wire form is
//! `ephemeral_public(32) || nonce(24) || ciphertext || tag`, in lowercase hex.

use vstd::prelude::*;

use crate::crypto::{
    aead_max_plaintext, clamp, edwards_point_valid, edwards_to_montgomery,
    edwards_to_x25519, hkdf_sha256, hkdf_sha256_32, random_bytes, sha512, sha512_bytes, x25519_agree,
    x25519_public, x25519_public_key, x25519_shared, ed25519_public, ed25519_public_key, sha256, sha256_bytes, xchacha_decrypt, xchacha_encrypt, xchacha_open,
    xchacha_seal,
};
use crate::error::CoreError;
use crate::hex::{
    array32, byte_range, bytes_eq, decode_hex, encode_hex, extend_bytes, hex_decode, hex_encode,
    lemma_hex_encode_chars, lemma_hex_roundtrip,
};
use crate::text::{
    byte_len, lemma_ascii_byte_len, lemma_trim_noop, strip_0x, strip_0x_str, trim, trim_str,
    utf8_len,
};

verus! {

pub const HKDF_INFO: &'static str = "ed25519_encryption";

/// Ephemeral public key plus nonce.
pub const WIRE_PREFIX_LEN: usize = 56;

pub open spec fn hkdf_info() -> Seq<char> {
    "ed25519_encryption"@
}

/// The symmetric key both sides derive from an X25519 shared secret.
pub open spec fn session_key(shared: Seq<u8>) -> Seq<u8> {
    hkdf_sha256(shared, hkdf_info())
}

/// The wire bytes that seal `plaintext` to the X25519 key `recipient` with ephemeral secret
/// `ephemeral` and nonce `nonce`.
pub open spec fn sealed_wire(recipient: Seq<u8>, ephemeral: Seq<u8>, nonce: Seq<u8>, plaintext: Seq<
    u8,
>) -> Seq<u8> {
    x25519_public(ephemeral) + nonce + xchacha_seal(
        session_key(x25519_shared(ephemeral, recipient)),
        nonce,
        plaintext,
    )
}

/// Whether `wire` is a hex wire payload of `plaintext` sealed to the X25519 key `recipient`.
pub open spec fn seals(recipient: Seq<u8>, wire: Seq<char>, plaintext: Seq<u8>) -> bool {
    exists|ephemeral: Seq<u8>, nonce: Seq<u8>|
        ephemeral.len() == 32 && nonce.len() == 24 && x25519_public(ephemeral).len() == 32
            && xchacha_seal(
            session_key(x25519_shared(ephemeral, recipient)),
            nonce,
            plaintext,
        ).len() == plaintext.len() + 16 && wire == hex_encode(
            #[trigger] sealed_wire(recipient, ephemeral, nonce, plaintext),
        )
}

/// What the holder of `secret` recovers from decoded wire bytes (more than 56 of them).
pub open spec fn open_wire(secret: Seq<u8>, wire: Seq<u8>) -> Option<Seq<u8>> {
    xchacha_open(
        session_key(x25519_shared(secret, wire.subrange(0, 32))),
        wire.subrange(32, 56),
        wire.subrange(56, wire.len() as int),
    )
}

/// The hex text a hex input is decoded from: surrounding whitespace and one `0x` removed.
pub open spec fn hex_body(text: Seq<char>) -> Seq<char> {
    strip_0x(trim(text))
}

/// The outcome of `decrypt_wire` for a secret and a wire text: `Ok` plaintext, or the error case.
pub open spec fn decrypt_spec(secret: Seq<u8>, text: Seq<char>, r: Result<Vec<u8>, CoreError>) -> bool {
    match hex_decode(hex_body(text)) {
        None => r matches Err(CoreError::Hex(_)),
        Some(w) => if w.len() <= WIRE_PREFIX_LEN {
            r matches Err(CoreError::CiphertextTooShort)
        } else {
            match open_wire(secret, w) {
                Some(p) => r matches Ok(v) && v@ == p,
                None => r matches Err(CoreError::Decrypt),
            }
        },
    }
}

/// What `decrypt_wire` recovers from a wire text, or `None` when it fails.
pub open spec fn opened(secret: Seq<u8>, text: Seq<char>) -> Option<Seq<u8>> {
    match hex_decode(hex_body(text)) {
        None => None,
        Some(w) => if w.len() <= WIRE_PREFIX_LEN {
            None
        } else {
            open_wire(secret, w)
        },
    }
}

/// The outcome relation of `decrypt_wire`, read as a function: `Ok` exactly with the opened bytes.
pub proof fn lemma_decrypt_spec_opened(secret: Seq<u8>, text: Seq<char>, r: Result<Vec<u8>, CoreError>)
    requires
        decrypt_spec(secret, text, r),
    ensures
        r is Ok <==> opened(secret, text) is Some,
        r matches Ok(v) ==> opened(secret, text) == Some(v@),
{
}

/// Strip an optional `0x` (after trimming) and decode a 32-byte public key.
pub fn decode_public_key_hex(value: &str) -> (r: Result<[u8; 32], CoreError>)
    ensures
        byte_len(hex_body(value@)) != 64 ==> (r matches Err(CoreError::Key(m)) && m@
            == "public key must be 32 bytes (64 hex chars)"@),
        byte_len(hex_body(value@)) == 64 && hex_decode(hex_body(value@)) is None ==> (r matches Err(
            CoreError::Hex(_),
        )),
        byte_len(hex_body(value@)) == 64 && hex_decode(hex_body(value@)) is Some ==> (r matches Ok(
            k,
        ) && Some(k@) == hex_decode(hex_body(value@))),
{
    let stripped = strip_0x_str(trim_str(value));
    if utf8_len(stripped) != 64 {
        return Err(CoreError::Key(String::from_str("public key must be 32 bytes (64 hex chars)")));
    }
    match decode_hex(stripped) {
        Err(e) => Err(CoreError::Hex(e)),
        Ok(bytes) => {
            proof {
                assert forall|i: int| 0 <= i < stripped@.len() implies (#[trigger] stripped@[i]
                    as u32) < 128 by {
                    assert(crate::hex::is_hex_char(stripped@[i]));
                }
                lemma_ascii_byte_len(stripped@);
            }
            Ok(array32(bytes.as_slice()))
        },
    }
}

/// Ed25519 public key to X25519 public key (Edwards to Montgomery form).
pub fn ed25519_public_to_x25519(ed_pub: &[u8; 32]) -> (r: Result<[u8; 32], CoreError>)
    ensures
        edwards_point_valid(ed_pub@) ==> (r matches Ok(x) && x@ == edwards_to_montgomery(ed_pub@)),
        !edwards_point_valid(ed_pub@) ==> (r matches Err(CoreError::Key(m)) && m@
            == "invalid ed25519 public key point"@),
{
    match edwards_to_x25519(ed_pub) {
        Some(x) => Ok(x),
        None => Err(CoreError::Key(String::from_str("invalid ed25519 public key point"))),
    }
}

/// The X25519 secret of a 64-byte Ed25519 secret (seed || public): the clamped first half of
/// SHA-512(seed).
pub fn ed25519_secret_to_x25519_secret(secret_64: &[u8]) -> (r: Result<[u8; 32], CoreError>)
    ensures
        secret_64@.len() == 64 ==> (r matches Ok(s) && s@ == clamp(
            sha512(secret_64@.subrange(0, 32)).subrange(0, 32),
        )),
        secret_64@.len() != 64 ==> (r matches Err(CoreError::Key(m)) && m@
            == "ed25519 secret must be 64 bytes (seed||public)"@),
{
    if secret_64.len() != 64 {
        return Err(CoreError::Key(String::from_str("ed25519 secret must be 64 bytes (seed||public)")));
    }
    let seed = byte_range(secret_64, 0, 32);
    let hash = sha512_bytes(seed.as_slice());
    let mut s = array32(hash.as_slice());
    s[0] = s[0] & 248u8;
    s[31] = (s[31] & 127u8) | 64u8;
    proof {
        assert(s@ =~= clamp(sha512(secret_64@.subrange(0, 32)).subrange(0, 32)));
    }
    Ok(s)
}

/// The 32-byte symmetric key for a shared secret.
pub fn derive_key(shared_secret: &[u8]) -> (r: [u8; 32])
    ensures
        r@ == session_key(shared_secret@),
{
    hkdf_sha256_32(shared_secret, HKDF_INFO)
}

/// Seals `plaintext` to the X25519 key `recipient_x` with the ephemeral secret and nonce given:
/// the lowercase hex of `ephemeral_pub || nonce || ciphertext+tag`.
pub fn seal_to_model(recipient_x: &[u8; 32], ephemeral: &[u8; 32], nonce: &[u8], plaintext: &[u8]) -> (r: Option<String>)
    requires
        nonce@.len() == 24,
    ensures
        plaintext@.len() < aead_max_plaintext() ==> r is Some,
        r matches Some(w) ==> w@ == hex_encode(sealed_wire(recipient_x@, ephemeral@, nonce@, plaintext@))
            && w@.len() == 2 * (56 + plaintext@.len() + 16) && xchacha_seal(
            session_key(x25519_shared(ephemeral@, recipient_x@)),
            nonce@,
            plaintext@,
        ).len() == plaintext@.len() + 16,
{
    let ephemeral_pub = x25519_public_key(ephemeral);
    let shared = x25519_agree(ephemeral, recipient_x);
    let key = derive_key(&shared);
    let ciphertext = match xchacha_encrypt(&key, nonce, plaintext) {
        Some(c) => c,
        None => {
            return None;
        },
    };
    let mut wire: Vec<u8> = Vec::new();
    extend_bytes(&mut wire, &ephemeral_pub);
    extend_bytes(&mut wire, nonce);
    extend_bytes(&mut wire, ciphertext.as_slice());
    proof {
        assert(wire@ =~= sealed_wire(recipient_x@, ephemeral@, nonce@, plaintext@));
    }
    Some(encode_hex(wire.as_slice()))
}

/// Encrypt `plaintext` to the model whose Ed25519 public key is `model_ed25519_pub`, with a fresh
/// ephemeral key and nonce; the result is the lowercase-hex wire payload.
pub fn encrypt_to_model(model_ed25519_pub: &[u8; 32], plaintext: &[u8]) -> (r: Result<
    String,
    CoreError,
>)
    ensures
        !edwards_point_valid(model_ed25519_pub@) ==> (r matches Err(CoreError::Key(m)) && m@
            == "invalid ed25519 public key point"@),
        edwards_point_valid(model_ed25519_pub@) && plaintext@.len() < aead_max_plaintext() ==> r is Ok,
        r matches Ok(w) ==> seals(edwards_to_montgomery(model_ed25519_pub@), w@, plaintext@)
            && w@.len() == 2 * (56 + plaintext@.len() + 16),
        r matches Err(e) ==> (e is Key && !edwards_point_valid(model_ed25519_pub@)) || (e is Decrypt
            && plaintext@.len() >= aead_max_plaintext()),
{
    let recipient_x = ed25519_public_to_x25519(model_ed25519_pub)?;
    let ephemeral = array32(random_bytes(32).as_slice());
    let nonce = random_bytes(24);
    match seal_to_model(&recipient_x, &ephemeral, nonce.as_slice(), plaintext) {
        Some(text) => {
            proof {
                let recipient = edwards_to_montgomery(model_ed25519_pub@);
                assert(x25519_public(ephemeral@).len() == 32);
                assert(seals(recipient, text@, plaintext@));
            }
            Ok(text)
        },
        None => Err(CoreError::Decrypt),
    }
}

/// Decrypt a hex wire payload with the recipient's X25519 secret.
///
/// Whatever `encrypt_to_model` (or any sender following the protocol) sealed to the X25519 public
/// key of `recipient_x25519_secret`, this opens to the original plaintext.
pub fn decrypt_wire(recipient_x25519_secret: &[u8; 32], wire_hex: &str) -> (r: Result<
    Vec<u8>,
    CoreError,
>)
    ensures
        decrypt_spec(recipient_x25519_secret@, wire_hex@, r),
        forall|p: Seq<u8>|
            p.len() < aead_max_plaintext() && #[trigger] seals(
                x25519_public(recipient_x25519_secret@),
                wire_hex@,
                p,
            ) ==> (r matches Ok(v) && v@ == p),
        r matches Ok(v) ==> (hex_decode(hex_body(wire_hex@)) matches Some(w) && w.subrange(
            56,
            w.len() as int,
        ) == xchacha_seal(
            session_key(x25519_shared(recipient_x25519_secret@, w.subrange(0, 32))),
            w.subrange(32, 56),
            v@,
        )),
{
    let stripped = strip_0x_str(trim_str(wire_hex));
    let wire = match decode_hex(stripped) {
        Ok(w) => w,
        Err(e) => {
            proof {
                lemma_sealed_text_decodes(recipient_x25519_secret@, wire_hex@);
            }
            return Err(CoreError::Hex(e));
        },
    };
    if wire.len() <= WIRE_PREFIX_LEN {
        proof {
            lemma_sealed_text_decodes(recipient_x25519_secret@, wire_hex@);
        }
        return Err(CoreError::CiphertextTooShort);
    }
    let ephemeral = array32(wire.as_slice());
    let nonce = byte_range(wire.as_slice(), 32, WIRE_PREFIX_LEN);
    let ciphertext = byte_range(wire.as_slice(), WIRE_PREFIX_LEN, wire.len());
    let shared = x25519_agree(recipient_x25519_secret, &ephemeral);
    let key = derive_key(&shared);
    let opened = xchacha_decrypt(&key, nonce.as_slice(), ciphertext.as_slice());
    proof {
        lemma_sealed_text_decodes(recipient_x25519_secret@, wire_hex@);
        assert forall|p: Seq<u8>|
            p.len() < aead_max_plaintext() && #[trigger] seals(
                x25519_public(recipient_x25519_secret@),
                wire_hex@,
                p,
            ) implies (opened matches Some(v) && v@ == p) by {
            let recipient = x25519_public(recipient_x25519_secret@);
            let (e, n) = choose|e: Seq<u8>, n: Seq<u8>|
                e.len() == 32 && n.len() == 24 && x25519_public(e).len() == 32 && xchacha_seal(
                    session_key(x25519_shared(e, recipient)),
                    n,
                    p,
                ).len() == p.len() + 16 && wire_hex@ == hex_encode(
                    #[trigger] sealed_wire(recipient, e, n, p),
                );
            let sealed = sealed_wire(recipient, e, n, p);
            lemma_hex_roundtrip(sealed);
            assert(wire@ == sealed);
            assert(ephemeral@ =~= x25519_public(e));
            assert(nonce@ =~= n);
            assert(shared@ == x25519_shared(e, recipient));
            assert(ciphertext@ =~= xchacha_seal(session_key(x25519_shared(e, recipient)), n, p));
        }
    }
    match opened {
        Some(p) => Ok(p),
        None => Err(CoreError::Decrypt),
    }
}

/// A sealed wire text decodes to its wire bytes: it is plain lowercase hex, so trimming and the
/// optional `0x` leave it alone, and it is longer than the prefix.
proof fn lemma_sealed_text_decodes(secret: Seq<u8>, text: Seq<char>)
    ensures
        forall|p: Seq<u8>|
            #[trigger] seals(x25519_public(secret), text, p) ==> exists|w: Seq<u8>|
                hex_decode(hex_body(text)) == Some(w) && text == hex_encode(w) && w.len() >= 56,
{
    assert forall|p: Seq<u8>| #[trigger] seals(x25519_public(secret), text, p) implies exists|
        w: Seq<u8>,
    | hex_decode(hex_body(text)) == Some(w) && text == hex_encode(w) && w.len() >= 56 by {
        let recipient = x25519_public(secret);
        let (e, n) = choose|e: Seq<u8>, n: Seq<u8>|
            e.len() == 32 && n.len() == 24 && x25519_public(e).len() == 32 && xchacha_seal(
                session_key(x25519_shared(e, recipient)),
                n,
                p,
            ).len() == p.len() + 16 && text == hex_encode(
                #[trigger] sealed_wire(recipient, e, n, p),
            );
        let w = sealed_wire(recipient, e, n, p);
        lemma_hex_roundtrip(w);
        if text.len() > 0 {
            lemma_hex_encode_chars(w, 0);
            lemma_hex_encode_chars(w, text.len() - 1);
        }
        lemma_trim_noop(text);
        if text.len() >= 2 {
            lemma_hex_encode_chars(w, 1);
        }
        assert(hex_body(text) == text);
    }
}

/// A fresh Ed25519 client identity for one relay request: the hex public key that is published,
/// and the X25519 secret that opens what is sealed to it. Generated per request, never persisted.
#[derive(Debug)]
pub struct ClientKeypair {
    pub public_hex: String,
    pub x25519_secret: [u8; 32],
}

impl ClientKeypair {
    /// The decoded public key.
    pub open spec fn public_key(self) -> Seq<u8> {
        hex_decode(self.public_hex@)->0
    }

    /// The published key is a curve point whose X25519 form belongs to `x25519_secret`.
    pub open spec fn wf(self) -> bool {
        &&& hex_decode(self.public_hex@) is Some
        &&& self.public_key().len() == 32
        &&& edwards_point_valid(self.public_key())
        &&& edwards_to_montgomery(self.public_key()) == x25519_public(self.x25519_secret@)
    }

    /// A key pair from a fresh random seed.
    pub fn generate() -> (kp: Self)
        ensures
            kp.wf(),
            kp.public_hex@ == hex_encode(kp.public_key()),
            exists|seed: Seq<u8>|
                seed.len() == 32 && kp.public_key() == #[trigger] ed25519_public(seed)
                    && kp.x25519_secret@ == clamp(sha512(seed).subrange(0, 32)),
    {
        let seed = array32(random_bytes(32).as_slice());
        let public = ed25519_public_key(&seed);
        let mut secret_64: Vec<u8> = Vec::new();
        extend_bytes(&mut secret_64, &seed);
        extend_bytes(&mut secret_64, &public);
        let x25519_secret = match ed25519_secret_to_x25519_secret(secret_64.as_slice()) {
            Ok(s) => s,
            Err(_) => {
                proof {
                    assert(false);
                }
                seed
            },
        };
        let public_hex = encode_hex(&public);
        proof {
            assert(secret_64@.subrange(0, 32) =~= seed@);
            lemma_hex_roundtrip(public@);
        }
        ClientKeypair { public_hex, x25519_secret }
    }

    /// Decrypt a wire payload addressed to this client: whatever was sealed to this client's
    /// published key opens to its plaintext.
    pub fn decrypt(&self, wire_hex: &str) -> (r: Result<Vec<u8>, CoreError>)
        ensures
            decrypt_spec(self.x25519_secret@, wire_hex@, r),
            self.wf() ==> forall|p: Seq<u8>|
                p.len() < aead_max_plaintext() && #[trigger] seals(
                    edwards_to_montgomery(self.public_key()),
                    wire_hex@,
                    p,
                ) ==> (r matches Ok(v) && v@ == p),
    {
        decrypt_wire(&self.x25519_secret, wire_hex)
    }
}

/// Whether decoded `report_data` binds `sha256(key || fingerprint)` and `nonce`.
pub open spec fn report_data_binds(report: Seq<u8>, key: Seq<u8>, fingerprint: Seq<u8>, nonce: Seq<
    u8,
>) -> bool {
    report.subrange(0, 32) == sha256(key + fingerprint) && report.subrange(32, 64) == nonce
}

/// The TDX `report_data` binding check: `report_data[0..32] == sha256(key || fingerprint)` and
/// `report_data[32..64] == nonce`, over the raw decoded bytes. `None` is a hex decoding failure.
pub open spec fn report_data_outcome(report_hex: Seq<char>, key_hex: Seq<char>, fp_hex: Seq<char>, nonce_hex: Seq<
    char,
>) -> Option<bool> {
    match hex_decode(report_hex) {
        None => None,
        Some(report) => if report.len() < 64 {
            Some(false)
        } else if hex_decode(key_hex) is None || hex_decode(fp_hex) is None || hex_decode(nonce_hex)
            is None {
            None
        } else {
            Some(
                report_data_binds(
                    report,
                    hex_decode(key_hex)->0,
                    hex_decode(fp_hex)->0,
                    hex_decode(nonce_hex)->0,
                ),
            )
        },
    }
}

/// Checks that TDX `report_data` (hex) binds the signing key, the TLS fingerprint and the nonce.
pub fn verify_report_data(
    report_data_hex: &str,
    signing_key_hex: &str,
    tls_fingerprint_hex: &str,
    nonce_hex: &str,
) -> (r: Result<bool, CoreError>)
    ensures
        report_data_outcome(report_data_hex@, signing_key_hex@, tls_fingerprint_hex@, nonce_hex@)
            is None <==> (r matches Err(CoreError::Hex(_))),
        r matches Ok(b) ==> Some(b) == report_data_outcome(
            report_data_hex@,
            signing_key_hex@,
            tls_fingerprint_hex@,
            nonce_hex@,
        ),
        r is Err ==> (r matches Err(CoreError::Hex(_))),
{
    let report_data = match decode_hex(report_data_hex) {
        Ok(v) => v,
        Err(e) => {
            return Err(CoreError::Hex(e));
        },
    };
    if report_data.len() < 64 {
        return Ok(false);
    }
    let key = match decode_hex(signing_key_hex) {
        Ok(v) => v,
        Err(e) => {
            return Err(CoreError::Hex(e));
        },
    };
    let fp = match decode_hex(tls_fingerprint_hex) {
        Ok(v) => v,
        Err(e) => {
            return Err(CoreError::Hex(e));
        },
    };
    let nonce = match decode_hex(nonce_hex) {
        Ok(v) => v,
        Err(e) => {
            return Err(CoreError::Hex(e));
        },
    };
    let mut material: Vec<u8> = Vec::new();
    extend_bytes(&mut material, key.as_slice());
    extend_bytes(&mut material, fp.as_slice());
    let expected = sha256_bytes(material.as_slice());
    let head = byte_range(report_data.as_slice(), 0, 32);
    let tail = byte_range(report_data.as_slice(), 32, 64);
    Ok(bytes_eq(head.as_slice(), expected.as_slice()) && bytes_eq(tail.as_slice(), nonce.as_slice()))
}

} // verus!
