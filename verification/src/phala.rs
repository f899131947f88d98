//! The Phala ACI v2 provider: the exact plaintext request body its gateway receipts bind, the
//! canonical per-field AAD, and X25519 + HKDF-SHA256 + AES-256-GCM field encryption.

use vstd::prelude::*;

use aes_gcm::aead::{Aead, Payload};
use aes_gcm::{Aes256Gcm, KeyInit, Nonce};

use crate::crypto::{
    hkdf_sha256, hkdf_sha256_32, random_bytes, sha256, sha256_bytes, x25519_agree, x25519_public,
    x25519_public_key, x25519_shared,
};
use crate::error::CoreError;
use crate::hex::{hex_error_text, 
    array32, byte_range, decode_hex, encode_hex, extend_bytes, hex_decode, hex_encode,
    lemma_hex_roundtrip,
};
use crate::json::{json_quote, json_quoted, json_string_array, push_string_array, string_views};
use crate::provider::{PlainProviderMessage, PlainProviderRequest};
use crate::text::{concat2, concat3, decimal, push_decimal, str_eq, strip_0x, strip_0x_str};

verus! {

broadcast use {vstd::utf8::encode_utf8_decode_utf8, vstd::utf8::encode_utf8_valid_utf8};

pub const PHALA_PROVIDER_ID: &'static str = "phala";

pub const PHALA_ATTESTATION_PROTOCOL: &'static str = "phala-aci-tdx-v1";

pub const PHALA_ACI_V2_PROTOCOL: &'static str = "phala-aci-v2";

pub const PHALA_ACI_V2_ENCRYPTION_VERSION: u8 = 2;

pub const E2EE_ALGORITHM: &'static str = "x25519-aes-256-gcm-hkdf-sha256";

pub const HKDF_INFO: &'static str = "aci.e2ee.v2.x25519";

/// The Phala attestation verifier.
#[derive(Debug)]
pub struct PhalaAttestor;

impl PhalaAttestor {
    pub fn protocol(&self) -> (r: &'static str)
        ensures
            r@ == "phala-aci-tdx-v1"@,
    {
        PHALA_ATTESTATION_PROTOCOL
    }
}

/// The Phala ACI v2 cipher.
#[derive(Debug)]
pub struct PhalaCipher;

impl PhalaCipher {
    pub fn protocol(&self) -> (r: &'static str)
        ensures
            r@ == "phala-aci-v2"@,
    {
        PHALA_ACI_V2_PROTOCOL
    }

    pub fn encryption_version(&self) -> (r: u8)
        ensures
            r == 2,
    {
        PHALA_ACI_V2_ENCRYPTION_VERSION
    }
}

fn provider_error(message: &str) -> (r: CoreError)
    ensures
        r matches CoreError::Provider(m) && m@ == message@,
{
    CoreError::Provider(String::from_str(message))
}

/// `sha256:` followed by the lowercase hex SHA-256 of the bytes.
pub fn sha256_digest(bytes: &[u8]) -> (r: String)
    ensures
        r@ == "sha256:"@ + hex_encode(sha256(bytes@)),
{
    concat2("sha256:", encode_hex(sha256_bytes(bytes).as_slice()).as_str())
}

/// What decoding a 32-byte value given as hex (optionally `0x`-prefixed) gives: the bytes, or the
/// message naming `label`.
pub open spec fn decode_32_result(label: Seq<char>, value: Seq<char>) -> Result<Seq<u8>, Seq<char>> {
    match hex_decode(strip_0x(value)) {
        None => Err("Phala "@ + label + " must be hex: "@ + hex_error_text(strip_0x(value))),
        Some(b) => if b.len() != 32 {
            Err("Phala "@ + label + " must be exactly 32 bytes"@)
        } else {
            Ok(b)
        },
    }
}

/// A 32-byte value given as hex, optionally `0x`-prefixed.
pub fn decode_32(label: &str, value: &str) -> (r: Result<[u8; 32], CoreError>)
    ensures
        match decode_32_result(label@, value@) {
            Ok(b) => r matches Ok(k) && k@ == b,
            Err(m) => r matches Err(CoreError::Attestation(x)) && x@ == m,
        },
{
    let bytes = match decode_hex(strip_0x_str(value)) {
        Ok(b) => b,
        Err(e) => {
            let mut message = concat3("Phala ", label, " must be hex: ");
            message.append(e.as_str());
            return Err(CoreError::Attestation(message));
        },
    };
    if bytes.len() != 32 {
        let message = concat3("Phala ", label, " must be exactly 32 bytes");
        return Err(CoreError::Attestation(message));
    }
    let k = array32(bytes.as_slice());
    proof {
        assert(bytes@.subrange(0, 32) =~= bytes@);
    }
    Ok(k)
}

// ---- per-field AAD ----

/// The canonical (sorted-key, compact) JSON of the request AAD object.
pub open spec fn request_aad_text(model: Seq<char>, nonce: Seq<char>, ts: u64, field: Seq<char>) -> Seq<char> {
    "{\"algo\":\"x25519-aes-256-gcm-hkdf-sha256\",\"field\":"@ + json_quoted(field) + ",\"model\":"@
        + json_quoted(model) + ",\"nonce\":"@ + json_quoted(nonce)
        + ",\"purpose\":\"aci.e2ee.request.v2\",\"ts\":"@ + decimal(ts as nat) + "}"@
}

/// The canonical (sorted-key, compact) JSON of the response AAD object.
pub open spec fn response_aad_text(
    model: Seq<char>,
    nonce: Seq<char>,
    ts: u64,
    response_id: Seq<char>,
    field: Seq<char>,
) -> Seq<char> {
    "{\"algo\":\"x25519-aes-256-gcm-hkdf-sha256\",\"field\":"@ + json_quoted(field) + ",\"id\":"@
        + json_quoted(response_id) + ",\"model\":"@ + json_quoted(model) + ",\"nonce\":"@
        + json_quoted(nonce) + ",\"purpose\":\"aci.e2ee.response.v2\",\"ts\":"@ + decimal(ts as nat)
        + "}"@
}

fn utf8_bytes(s: &String) -> (r: Vec<u8>)
    ensures
        r@ == vstd::utf8::encode_utf8(s@),
{
    vstd::slice::slice_to_vec(s.as_str().as_bytes())
}

/// The AAD that binds a request field to the model, the session nonce and timestamp.
pub fn request_aad(model: &str, nonce: &str, timestamp: u64, field: &str) -> (r: Vec<u8>)
    ensures
        r@ == vstd::utf8::encode_utf8(request_aad_text(model@, nonce@, timestamp, field@)),
{
    let mut out = String::from_str("{\"algo\":\"x25519-aes-256-gcm-hkdf-sha256\",\"field\":");
    out.append(json_quote(field).as_str());
    out.append(",\"model\":");
    out.append(json_quote(model).as_str());
    out.append(",\"nonce\":");
    out.append(json_quote(nonce).as_str());
    out.append(",\"purpose\":\"aci.e2ee.request.v2\",\"ts\":");
    push_decimal(&mut out, timestamp);
    out.append("}");
    utf8_bytes(&out)
}

/// The AAD that binds a response field to the model, session, response id and field.
pub fn response_aad(model: &str, nonce: &str, timestamp: u64, response_id: &str, field: &str) -> (r: Vec<
    u8,
>)
    ensures
        r@ == vstd::utf8::encode_utf8(
            response_aad_text(model@, nonce@, timestamp, response_id@, field@),
        ),
{
    let mut out = String::from_str("{\"algo\":\"x25519-aes-256-gcm-hkdf-sha256\",\"field\":");
    out.append(json_quote(field).as_str());
    out.append(",\"id\":");
    out.append(json_quote(response_id).as_str());
    out.append(",\"model\":");
    out.append(json_quote(model).as_str());
    out.append(",\"nonce\":");
    out.append(json_quote(nonce).as_str());
    out.append(",\"purpose\":\"aci.e2ee.response.v2\",\"ts\":");
    push_decimal(&mut out, timestamp);
    out.append("}");
    utf8_bytes(&out)
}

// ---- AES-256-GCM field encryption ----

/// AES-256-GCM ciphertext (with tag) of `plaintext` under `key`, `nonce` and `aad`.
pub uninterp spec fn aes_gcm_seal(key: Seq<u8>, nonce: Seq<u8>, plaintext: Seq<u8>, aad: Seq<u8>) -> Seq<u8>;

/// AES-256-GCM decryption, `None` when the tag does not verify.
pub uninterp spec fn aes_gcm_open(key: Seq<u8>, nonce: Seq<u8>, ciphertext: Seq<u8>, aad: Seq<u8>) -> Option<
    Seq<u8>,
>;

/// AES-GCM refuses plaintexts and AAD above 2^36 bytes.
pub open spec fn aes_gcm_limit() -> nat {
    0x10_0000_0000
}

/// `Aes256Gcm::encrypt`: ciphertext and 16-byte tag, which decryption under the same key, nonce
/// and AAD opens again; refused only above the plaintext and AAD limits.
#[verifier::external_body]
fn aes_gcm_encrypt(key: &[u8; 32], nonce: &[u8], plaintext: &[u8], aad: &[u8]) -> (r: Option<Vec<u8>>)
    requires
        nonce@.len() == 12,
    ensures
        plaintext@.len() <= aes_gcm_limit() && aad@.len() <= aes_gcm_limit() ==> r is Some,
        r matches Some(c) ==> c@ == aes_gcm_seal(key@, nonce@, plaintext@, aad@) && c@.len()
            == plaintext@.len() + 16 && aes_gcm_open(key@, nonce@, c@, aad@) == Some(plaintext@),
{
    Aes256Gcm::new(key.into()).encrypt(Nonce::from_slice(nonce), Payload { msg: plaintext, aad }).ok()
}

/// `Aes256Gcm::decrypt`: the plaintext when the tag verifies; only a ciphertext that re-encrypting
/// that plaintext under the same key, nonce and AAD gives opens.
#[verifier::external_body]
fn aes_gcm_decrypt(key: &[u8; 32], nonce: &[u8], ciphertext: &[u8], aad: &[u8]) -> (r: Option<Vec<u8>>)
    requires
        nonce@.len() == 12,
    ensures
        crate::crypto::bytes_option(r) == aes_gcm_open(key@, nonce@, ciphertext@, aad@),
        r matches Some(p) ==> ciphertext@ == aes_gcm_seal(key@, nonce@, p@, aad@),
        forall|p: Seq<u8>|
            p.len() <= aes_gcm_limit() && aad@.len() <= aes_gcm_limit() && ciphertext@
                == #[trigger] aes_gcm_seal(key@, nonce@, p, aad@) ==> crate::crypto::bytes_option(r)
                == Some(p),
{
    Aes256Gcm::new(key.into()).decrypt(Nonce::from_slice(nonce), Payload { msg: ciphertext, aad }).ok()
}

pub open spec fn field_key(shared: Seq<u8>) -> Seq<u8> {
    hkdf_sha256(shared, "aci.e2ee.v2.x25519"@)
}

/// The AES key for an X25519 shared secret.
pub fn derive_key(shared: &[u8]) -> (r: [u8; 32])
    ensures
        r@ == field_key(shared@),
{
    hkdf_sha256_32(shared, HKDF_INFO)
}

/// The envelope of a field sealed to `recipient` with ephemeral secret `e` and nonce `n`.
pub open spec fn field_envelope(recipient: Seq<u8>, e: Seq<u8>, n: Seq<u8>, plaintext: Seq<u8>, aad: Seq<u8>) -> Seq<u8> {
    x25519_public(e) + n + aes_gcm_seal(field_key(x25519_shared(e, recipient)), n, plaintext, aad)
}

/// Whether `wire` is the hex envelope of `plaintext` sealed to `recipient` under `aad`.
pub open spec fn seals_field(recipient: Seq<u8>, wire: Seq<char>, plaintext: Seq<u8>, aad: Seq<u8>) -> bool {
    exists|e: Seq<u8>, n: Seq<u8>|
        e.len() == 32 && n.len() == 12 && x25519_public(e).len() == 32 && aes_gcm_seal(
            field_key(x25519_shared(e, recipient)),
            n,
            plaintext,
            aad,
        ).len() == plaintext.len() + 16 && wire == hex_encode(
            #[trigger] field_envelope(recipient, e, n, plaintext, aad),
        )
}

/// Seals a request field to the X25519 key `recipient` under `aad` with the ephemeral secret and
/// 12-byte nonce given: the lowercase hex of `ephemeral_pub || nonce || ciphertext+tag`.
pub fn seal_field(recipient: &[u8; 32], ephemeral: &[u8; 32], nonce: &[u8], plaintext: &[u8], aad: &[u8]) -> (r: Option<String>)
    requires
        nonce@.len() == 12,
    ensures
        plaintext@.len() <= aes_gcm_limit() && aad@.len() <= aes_gcm_limit() ==> r is Some,
        r matches Some(w) ==> w@ == hex_encode(field_envelope(recipient@, ephemeral@, nonce@, plaintext@, aad@))
            && w@.len() == 2 * (44 + plaintext@.len() + 16) && aes_gcm_seal(
            field_key(x25519_shared(ephemeral@, recipient@)),
            nonce@,
            plaintext@,
            aad@,
        ).len() == plaintext@.len() + 16,
{
    let ephemeral_public = x25519_public_key(ephemeral);
    let key = derive_key(&x25519_agree(ephemeral, recipient));
    let ciphertext = match aes_gcm_encrypt(&key, nonce, plaintext, aad) {
        Some(c) => c,
        None => {
            return None;
        },
    };
    let mut wire: Vec<u8> = Vec::new();
    extend_bytes(&mut wire, &ephemeral_public);
    extend_bytes(&mut wire, nonce);
    extend_bytes(&mut wire, ciphertext.as_slice());
    proof {
        assert(wire@ =~= field_envelope(recipient@, ephemeral@, nonce@, plaintext@, aad@));
    }
    Some(encode_hex(wire.as_slice()))
}

/// Seals a request field to the gateway's X25519 key (given as hex) under `aad`, with a fresh
/// ephemeral key and nonce.
pub fn encrypt_field(plaintext: &[u8], recipient_hex: &str, aad: &[u8]) -> (r: Result<String, CoreError>)
    ensures
        hex_decode(strip_0x(recipient_hex@)) is Some && hex_decode(strip_0x(recipient_hex@))->0.len()
            == 32 && plaintext@.len() <= aes_gcm_limit() && aad@.len() <= aes_gcm_limit() ==> r is Ok,
        r matches Ok(w) ==> hex_decode(strip_0x(recipient_hex@)) matches Some(k) && seals_field(
            k,
            w@,
            plaintext@,
            aad@,
        ) && w@.len() == 2 * (44 + plaintext@.len() + 16),
{
    let recipient = decode_32("gateway X25519 key", recipient_hex)?;
    let ephemeral = array32(random_bytes(32).as_slice());
    let nonce = random_bytes(12);
    match seal_field(&recipient, &ephemeral, nonce.as_slice(), plaintext, aad) {
        Some(text) => {
            proof {
                assert(x25519_public(ephemeral@).len() == 32);
                assert(seals_field(recipient@, text@, plaintext@, aad@));
            }
            Ok(text)
        },
        None => Err(provider_error("Phala request encryption failed")),
    }
}

/// The text a response field decrypts to, or `None` when it does not (not hex, too short, tag
/// mismatch, or not UTF-8).
pub open spec fn field_plaintext(secret: Seq<u8>, wire: Seq<char>, aad: Seq<u8>) -> Option<Seq<char>> {
    match hex_decode(wire) {
        None => None,
        Some(w) => if w.len() < 60 {
            None
        } else {
            match aes_gcm_open(
                field_key(x25519_shared(secret, w.subrange(0, 32))),
                w.subrange(32, 44),
                w.subrange(44, w.len() as int),
                aad,
            ) {
                Some(p) => if vstd::utf8::valid_utf8(p) {
                    Some(vstd::utf8::decode_utf8(p))
                } else {
                    None
                },
                None => None,
            }
        },
    }
}

/// Why a response field does not open, when it does not.
pub open spec fn field_open_error(secret: Seq<u8>, wire: Seq<char>, aad: Seq<u8>) -> Seq<char> {
    match hex_decode(wire) {
        None => "Phala response envelope is not hex"@,
        Some(w) => if w.len() < 60 {
            "Phala response envelope is too short"@
        } else {
            match aes_gcm_open(
                field_key(x25519_shared(secret, w.subrange(0, 32))),
                w.subrange(32, 44),
                w.subrange(44, w.len() as int),
                aad,
            ) {
                None => "Phala response decryption failed"@,
                Some(_) => "Phala response is not UTF-8"@,
            }
        },
    }
}

/// Opens a response field with the client's X25519 secret under `aad`. What was sealed to the
/// client's public key under the same AAD opens to its text.
pub fn decrypt_field(wire_hex: &str, secret: &[u8; 32], aad: &[u8]) -> (r: Result<String, CoreError>)
    ensures
        field_plaintext(secret@, wire_hex@, aad@) matches Some(t) ==> (r matches Ok(v) && v@ == t),
        field_plaintext(secret@, wire_hex@, aad@) is None ==> (r matches Err(CoreError::Provider(m))
            && m@ == field_open_error(secret@, wire_hex@, aad@)),
        forall|p: Seq<char>|
            vstd::utf8::encode_utf8(p).len() <= aes_gcm_limit() && aad@.len() <= aes_gcm_limit()
                && #[trigger] seals_field(
                x25519_public(secret@),
                wire_hex@,
                vstd::utf8::encode_utf8(p),
                aad@,
            ) ==> (r matches Ok(v) && v@ == p),
{
    let wire = match decode_hex(wire_hex) {
        Ok(w) => w,
        Err(_) => {
            proof {
                lemma_sealed_field_decodes(secret@, wire_hex@, aad@);
            }
            return Err(provider_error("Phala response envelope is not hex"));
        },
    };
    if wire.len() < 60 {
        proof {
            lemma_sealed_field_decodes(secret@, wire_hex@, aad@);
        }
        return Err(provider_error("Phala response envelope is too short"));
    }
    let ephemeral = array32(wire.as_slice());
    let key = derive_key(&x25519_agree(secret, &ephemeral));
    let nonce = byte_range(wire.as_slice(), 32, 44);
    let ciphertext = byte_range(wire.as_slice(), 44, wire.len());
    let opened = aes_gcm_decrypt(&key, nonce.as_slice(), ciphertext.as_slice(), aad);
    proof {
        lemma_sealed_field_decodes(secret@, wire_hex@, aad@);
        assert forall|p: Seq<char>|
            vstd::utf8::encode_utf8(p).len() <= aes_gcm_limit() && aad@.len() <= aes_gcm_limit()
                && #[trigger] seals_field(
                x25519_public(secret@),
                wire_hex@,
                vstd::utf8::encode_utf8(p),
                aad@,
            ) implies crate::crypto::bytes_option(opened) == Some(vstd::utf8::encode_utf8(p)) by {
            let recipient = x25519_public(secret@);
            let b = vstd::utf8::encode_utf8(p);
            let (e, n) = choose|e: Seq<u8>, n: Seq<u8>|
                e.len() == 32 && n.len() == 12 && x25519_public(e).len() == 32 && aes_gcm_seal(
                    field_key(x25519_shared(e, recipient)),
                    n,
                    b,
                    aad@,
                ).len() == b.len() + 16 && wire_hex@ == hex_encode(
                    #[trigger] field_envelope(recipient, e, n, b, aad@),
                );
            let env = field_envelope(recipient, e, n, b, aad@);
            lemma_hex_roundtrip(env);
            assert(wire@ == env);
            assert(ephemeral@ =~= x25519_public(e));
            assert(nonce@ =~= n);
            assert(ciphertext@ =~= aes_gcm_seal(field_key(x25519_shared(e, recipient)), n, b, aad@));
        }
    }
    let plaintext = match opened {
        Some(p) => p,
        None => {
            return Err(provider_error("Phala response decryption failed"));
        },
    };
    match crate::text::string_from_utf8(plaintext) {
        Some(text) => Ok(text),
        None => Err(provider_error("Phala response is not UTF-8")),
    }
}

proof fn lemma_sealed_field_decodes(secret: Seq<u8>, text: Seq<char>, aad: Seq<u8>)
    ensures
        forall|p: Seq<char>|
            #[trigger] seals_field(x25519_public(secret), text, vstd::utf8::encode_utf8(p), aad)
                ==> exists|w: Seq<u8>|
                hex_decode(text) == Some(w) && text == hex_encode(w) && w.len() >= 60,
{
    assert forall|p: Seq<char>|
        #[trigger] seals_field(x25519_public(secret), text, vstd::utf8::encode_utf8(p), aad) implies exists|
        w: Seq<u8>,
    | hex_decode(text) == Some(w) && text == hex_encode(w) && w.len() >= 60 by {
        let recipient = x25519_public(secret);
        let b = vstd::utf8::encode_utf8(p);
        let (e, n) = choose|e: Seq<u8>, n: Seq<u8>|
            e.len() == 32 && n.len() == 12 && x25519_public(e).len() == 32 && aes_gcm_seal(
                field_key(x25519_shared(e, recipient)),
                n,
                b,
                aad,
            ).len() == b.len() + 16 && text == hex_encode(
                #[trigger] field_envelope(recipient, e, n, b, aad),
            );
        let w = field_envelope(recipient, e, n, b, aad);
        lemma_hex_roundtrip(w);
    }
}

// ---- the exact plaintext body ----

/// One message as the gateway hashes it: role, then content (or an explicit null for an assistant
/// message without content).
pub open spec fn message_json(m: PlainProviderMessage) -> Seq<char> {
    "{\"role\":"@ + json_quoted(m.role@) + content_part(m) + "}"@
}

pub open spec fn content_part(m: PlainProviderMessage) -> Seq<char> {
    match m.content {
        Some(c) => ",\"content\":"@ + json_quoted(c@),
        None => if m.assistant_null_content {
            ",\"content\":null"@
        } else {
            Seq::<char>::empty()
        },
    }
}

pub open spec fn messages_joined(ms: Seq<PlainProviderMessage>) -> Seq<char>
    decreases ms.len(),
{
    if ms.len() == 0 {
        Seq::<char>::empty()
    } else if ms.len() == 1 {
        message_json(ms[0])
    } else {
        messages_joined(ms.drop_last()) + ","@ + message_json(ms.last())
    }
}

/// The value of the first sampling member named `key`.
pub open spec fn member_value(members: Seq<(String, String)>, key: Seq<char>) -> Option<Seq<char>>
    decreases members.len(),
{
    if members.len() == 0 {
        None
    } else if members[0].0@ == key {
        Some(members[0].1@)
    } else {
        member_value(members.drop_first(), key)
    }
}

/// `,"key":value` for a present sampling member.
pub open spec fn member_part(members: Seq<(String, String)>, key: Seq<char>) -> Seq<char> {
    match member_value(members, key) {
        Some(v) => ",\""@ + key + "\":"@ + v,
        None => Seq::<char>::empty(),
    }
}

/// The sampling members the gateway accepts, in the order it hashes them.
pub open spec fn sampling_text(members: Seq<(String, String)>) -> Seq<char> {
    member_part(members, "temperature"@) + member_part(members, "top_p"@) + member_part(
        members,
        "top_k"@,
    ) + member_part(members, "min_p"@) + member_part(members, "frequency_penalty"@) + member_part(
        members,
        "presence_penalty"@,
    ) + member_part(members, "stop"@) + member_part(members, "seed"@)
}

pub open spec fn gateway_effort(e: Seq<char>) -> Seq<char> {
    if e == "xhigh"@ {
        "max"@
    } else {
        e
    }
}

/// The exact plaintext request body (compact JSON, members in this order) whose hash the
/// gateway's receipt must bind.
pub open spec fn plaintext_body(r: PlainProviderRequest, session_ids: Seq<Seq<char>>) -> Seq<char> {
    "{\"model\":"@ + json_quoted(r.model@) + ",\"messages\":["@ + messages_joined(r.messages@)
        + "],\"max_tokens\":"@ + decimal(r.max_tokens as nat) + ",\"stream\":"@ + (if r.stream {
        "true"@
    } else {
        "false"@
    }) + ",\"provider\":{\"aci_verified\":true,\"aci_session_ids\":"@ + json_string_array(
        session_ids,
    ) + ",\"zdr\":true}"@ + (if r.stream {
        ",\"stream_options\":{\"include_usage\":true}"@
    } else {
        Seq::<char>::empty()
    }) + sampling_part(r) + format_part(r) + effort_part(r) + "}"@
}

pub open spec fn sampling_part(r: PlainProviderRequest) -> Seq<char> {
    match r.sampling {
        Some(ms) => sampling_text(ms@),
        None => Seq::<char>::empty(),
    }
}

pub open spec fn format_part(r: PlainProviderRequest) -> Seq<char> {
    match r.response_format {
        Some(f) => ",\"response_format\":"@ + f@,
        None => Seq::<char>::empty(),
    }
}

pub open spec fn effort_part(r: PlainProviderRequest) -> Seq<char> {
    match r.reasoning_effort {
        Some(e) => ",\"reasoning_effort\":"@ + json_quoted(gateway_effort(e@)),
        None => Seq::<char>::empty(),
    }
}

/// Whether the request carries fields the gateway's v2 AAD contract does not cover yet.
pub open spec fn has_unsupported_fields(r: PlainProviderRequest) -> bool {
    r.has_tools || exists|i: int| 0 <= i < r.messages@.len() && (#[trigger] r.messages@[i]).has_extended_fields
}

fn find_member<'a>(members: &'a Vec<(String, String)>, key: &str) -> (r: Option<&'a String>)
    ensures
        match member_value(members@, key@) {
            Some(v) => r matches Some(s) && s@ == v,
            None => r is None,
        },
{
    let mut i: usize = 0;
    proof {
        assert(members@.subrange(0, members@.len() as int) =~= members@);
    }
    while i < members.len()
        invariant
            i <= members@.len(),
            member_value(members@.subrange(i as int, members@.len() as int), key@) == member_value(
                members@,
                key@,
            ),
        decreases members@.len() - i,
    {
        let ghost rest = members@.subrange(i as int, members@.len() as int);
        if str_eq(members[i].0.as_str(), key) {
            proof {
                assert(rest[0] == members@[i as int]);
            }
            return Some(&members[i].1);
        }
        proof {
            assert(rest.drop_first() =~= members@.subrange(i + 1, members@.len() as int));
        }
        i = i + 1;
    }
    None
}

fn push_member(out: &mut String, members: &Vec<(String, String)>, key: &str)
    ensures
        final(out)@ == old(out)@ + member_part(members@, key@),
{
    match find_member(members, key) {
        Some(v) => {
            let ghost before = out@;
            out.append(",\"");
            out.append(key);
            out.append("\":");
            out.append(v.as_str());
            proof {
                assert(out@ =~= before + (",\""@ + key@ + "\":"@ + v@));
            }
        },
        None => {
            proof {
                assert(out@ =~= old(out)@ + Seq::<char>::empty());
            }
        },
    }
}

fn push_message(out: &mut String, m: &PlainProviderMessage)
    ensures
        final(out)@ == old(out)@ + message_json(*m),
{
    let ghost before = out@;
    out.append("{\"role\":");
    out.append(json_quote(m.role.as_str()).as_str());
    let ghost mid = out@;
    match &m.content {
        Some(c) => {
            out.append(",\"content\":");
            out.append(json_quote(c.as_str()).as_str());
        },
        None => {
            if m.assistant_null_content {
                out.append(",\"content\":null");
            }
        },
    }
    let ghost after_content = out@;
    out.append("}");
    proof {
        assert(after_content =~= mid + content_part(*m));
        assert(out@ =~= before + message_json(*m));
    }
}

fn push_messages(out: &mut String, messages: &Vec<PlainProviderMessage>)
    ensures
        final(out)@ == old(out)@ + messages_joined(messages@),
{
    let ghost start = out@;
    let n = messages.len();
    let mut j: usize = 0;
    proof {
        assert(messages@.subrange(0, 0) =~= Seq::<PlainProviderMessage>::empty());
        assert(out@ =~= start + messages_joined(messages@.subrange(0, 0)));
    }
    while j < n
        invariant
            n == messages@.len(),
            j <= n,
            out@ == start + messages_joined(messages@.subrange(0, j as int)),
        decreases n - j,
    {
        let ghost before = out@;
        if j > 0 {
            out.append(",");
        }
        push_message(out, &messages[j]);
        j = j + 1;
        proof {
            let cur = messages@.subrange(0, j as int);
            assert(cur.drop_last() =~= messages@.subrange(0, j - 1));
            assert(cur.last() == messages@[j - 1]);
            if j == 1 {
                assert(out@ =~= start + messages_joined(cur));
            } else {
                assert(out@ =~= before + ","@ + message_json(cur.last()));
                assert(out@ =~= start + messages_joined(cur));
            }
        }
    }
    proof {
        assert(messages@.subrange(0, n as int) =~= messages@);
    }
}

#[verifier::spinoff_prover]
#[verifier::rlimit(40)]
fn push_sampling(out: &mut String, request: &PlainProviderRequest)
    ensures
        final(out)@ == old(out)@ + sampling_part(*request),
{
    let ghost before = out@;
    match &request.sampling {
        Some(members) => {
            push_member(out, members, "temperature");
            push_member(out, members, "top_p");
            push_member(out, members, "top_k");
            push_member(out, members, "min_p");
            push_member(out, members, "frequency_penalty");
            push_member(out, members, "presence_penalty");
            push_member(out, members, "stop");
            push_member(out, members, "seed");
            proof {
                assert(out@ =~= before + sampling_part(*request));
            }
        },
        None => {
            proof {
                assert(out@ =~= before + sampling_part(*request));
            }
        },
    }
}

fn push_format_and_effort(out: &mut String, request: &PlainProviderRequest)
    ensures
        final(out)@ == old(out)@ + format_part(*request) + effort_part(*request),
{
    let ghost before = out@;
    match &request.response_format {
        Some(f) => {
            out.append(",\"response_format\":");
            out.append(f.as_str());
        },
        None => {},
    }
    let ghost after_format = out@;
    proof {
        assert(after_format =~= before + format_part(*request));
    }
    match &request.reasoning_effort {
        Some(e) => {
            out.append(",\"reasoning_effort\":");
            let effort = if str_eq(e.as_str(), "xhigh") {
                "max"
            } else {
                e.as_str()
            };
            proof {
                reveal_strlit("xhigh");
                reveal_strlit("max");
            }
            out.append(json_quote(effort).as_str());
        },
        None => {},
    }
    proof {
        assert(out@ =~= after_format + effort_part(*request));
        assert(out@ =~= before + format_part(*request) + effort_part(*request));
    }
}

/// Whether a request carries tools or extended message fields.
fn carries_unsupported_fields(request: &PlainProviderRequest) -> (r: bool)
    ensures
        r == has_unsupported_fields(*request),
{
    if request.has_tools {
        return true;
    }
    let mut i: usize = 0;
    while i < request.messages.len()
        invariant
            i <= request.messages@.len(),
            !request.has_tools,
            forall|k: int| 0 <= k < i ==> !(#[trigger] request.messages@[k]).has_extended_fields,
        decreases request.messages@.len() - i,
    {
        if request.messages[i].has_extended_fields {
            return true;
        }
        i = i + 1;
    }
    false
}

/// The exact plaintext body of a Phala request and its session ids. Refused for requests with
/// tools or extended message fields, and for `logit_bias`.
pub fn exact_plaintext_body(request: &PlainProviderRequest, session_ids: &[String]) -> (r: Result<
    Vec<u8>,
    CoreError,
>)
    ensures
        has_unsupported_fields(*request) ==> (r matches Err(CoreError::Provider(m)) && m@
            == "Phala ACI tool and extended-message fields are unavailable until their v2 AAD contract is implemented"@),
        !has_unsupported_fields(*request) && (request.sampling matches Some(ms) && member_value(
            ms@,
            "logit_bias"@,
        ) is Some) ==> (r matches Err(CoreError::Provider(m)) && m@
            == "Phala does not support logit_bias"@),
        !has_unsupported_fields(*request) && !(request.sampling matches Some(ms) && member_value(
            ms@,
            "logit_bias"@,
        ) is Some) ==> (r matches Ok(b) && b@ == vstd::utf8::encode_utf8(
            plaintext_body(*request, string_views(session_ids@)),
        )),
{
    if carries_unsupported_fields(request) {
        return Err(
            provider_error(
                "Phala ACI tool and extended-message fields are unavailable until their v2 AAD contract is implemented",
            ),
        );
    }
    match &request.sampling {
        Some(members) => {
            if find_member(members, "logit_bias").is_some() {
                return Err(provider_error("Phala does not support logit_bias"));
            }
        },
        None => {},
    }
    let mut out = String::from_str("{\"model\":");
    out.append(json_quote(request.model.as_str()).as_str());
    out.append(",\"messages\":[");
    push_messages(&mut out, &request.messages);
    out.append("],\"max_tokens\":");
    push_decimal(&mut out, request.max_tokens as u64);
    out.append(",\"stream\":");
    if request.stream {
        out.append("true");
    } else {
        out.append("false");
    }
    out.append(",\"provider\":{\"aci_verified\":true,\"aci_session_ids\":");
    push_string_array(&mut out, session_ids);
    out.append(",\"zdr\":true}");
    if request.stream {
        out.append(",\"stream_options\":{\"include_usage\":true}");
    }
    push_sampling(&mut out, request);
    push_format_and_effort(&mut out, request);
    out.append("}");
    proof {
        assert(out@ =~= plaintext_body(*request, string_views(session_ids@)));
    }
    Ok(utf8_bytes(&out))
}

} // verus!
