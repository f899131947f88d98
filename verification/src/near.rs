//! The NEAR AI provider: `near-v2` end-to-end encryption over the NEAR gateway attestation format.

use vstd::prelude::*;

use crate::crypto::{aead_max_plaintext, edwards_to_montgomery};
use crate::e2ee::{
    decode_public_key_hex, decrypt_spec, encrypt_to_model, hex_body, seals, ClientKeypair,
};
use crate::error::CoreError;
use crate::hex::{hex_decode, hex_encode, lemma_hex_encode_chars};
use crate::provider::VerifiedModel;
use crate::text::{byte_len, contains, contains_seq, lemma_ascii_byte_len, lemma_trim_noop};

use crate::aci::RequestContext;
use crate::provider::{DecryptedProviderCompletion, PlainProviderRequest};
use crate::relay::RelayCompletion;

verus! {

/// The backend's provider id for NEAR.
pub const NEAR_PROVIDER_ID: &'static str = "near";

pub const NEAR_ATTESTATION_PROTOCOL: &'static str = "near-tdx-nvidia-v1";

pub const NEAR_V2_PROTOCOL: &'static str = "near-v2";

pub const NEAR_V2_ENCRYPTION_VERSION: u8 = 2;

/// NEAR's multi-model gateway needs an explicit model selector on attestation requests; per-model
/// hosts (`*.completions.near.ai`) do not.
pub fn is_near_gateway(base_url: &str) -> (r: bool)
    ensures
        r == contains_seq(base_url@, "cloud-api.near.ai"@),
{
    contains(base_url, "cloud-api.near.ai")
}

/// The NEAR attestation verifier.
#[derive(Debug)]
pub struct NearAttestor;

impl NearAttestor {
    pub fn protocol(&self) -> (r: &'static str)
        ensures
            r@ == "near-tdx-nvidia-v1"@,
    {
        NEAR_ATTESTATION_PROTOCOL
    }
}

/// The `near-v2` cipher: one fresh client identity per request.
#[derive(Debug)]
pub struct NearCipher;

impl NearCipher {
    pub fn protocol(&self) -> (r: &'static str)
        ensures
            r@ == "near-v2"@,
    {
        NEAR_V2_PROTOCOL
    }

    pub fn encryption_version(&self) -> (r: u8)
        ensures
            r == 2,
    {
        NEAR_V2_ENCRYPTION_VERSION
    }

    /// A session that encrypts to the verified model key, with a fresh client key pair.
    pub fn new_session(&self, verified: &VerifiedModel) -> (r: Result<NearSession, CoreError>)
        ensures
            byte_len(hex_body(verified.model_public_key_hex@)) == 64 && hex_decode(
                hex_body(verified.model_public_key_hex@),
            ) is Some ==> (r matches Ok(s) && s.keypair.wf() && Some(s.model_pub@) == hex_decode(
                hex_body(verified.model_public_key_hex@),
            )),
            !(byte_len(hex_body(verified.model_public_key_hex@)) == 64 && hex_decode(
                hex_body(verified.model_public_key_hex@),
            ) is Some) ==> r is Err,
    {
        let model_pub = decode_public_key_hex(verified.model_public_key_hex.as_str())?;
        Ok(NearSession { keypair: ClientKeypair::generate(), model_pub })
    }
}

/// One request's `near-v2` state: the client's fresh identity and the attested model key.
#[derive(Debug)]
pub struct NearSession {
    pub keypair: ClientKeypair,
    pub model_pub: [u8; 32],
}

impl NearSession {
    pub fn client_public_key_hex(&self) -> (r: Option<String>)
        ensures
            r matches Some(k) && k@ == self.keypair.public_hex@,
    {
        Some(self.keypair.public_hex.clone())
    }

    pub fn is_ready(&self) -> (r: bool)
        ensures
            r == (self.keypair.public_hex@.len() > 0),
    {
        self.keypair.public_hex.unicode_len() > 0
    }

    pub fn supports_streaming(&self) -> (r: bool)
        ensures
            r,
    {
        true
    }

    /// Seals `plaintext` to the attested model key.
    pub fn encrypt(&mut self, plaintext: &[u8]) -> (r: Result<String, CoreError>)
        ensures
            *final(self) == *old(self),
            plaintext@.len() < aead_max_plaintext() && crate::crypto::edwards_point_valid(
                old(self).model_pub@,
            ) ==> r is Ok,
            r matches Ok(w) ==> seals(edwards_to_montgomery(old(self).model_pub@), w@, plaintext@),
    {
        encrypt_to_model(&self.model_pub, plaintext)
    }

    /// `near-v2` has no per-field AAD: a field is sealed like any other payload.
    pub fn encrypt_field(&mut self, plaintext: &[u8], field: &str) -> (r: Result<String, CoreError>)
        ensures
            *final(self) == *old(self),
            plaintext@.len() < aead_max_plaintext() && crate::crypto::edwards_point_valid(
                old(self).model_pub@,
            ) ==> r is Ok,
            r matches Ok(w) ==> seals(edwards_to_montgomery(old(self).model_pub@), w@, plaintext@),
    {
        self.encrypt(plaintext)
    }

    /// `near-v2` sends no provider context beside its ciphertext.
    pub fn prepare_request_context(&mut self, request: &PlainProviderRequest) -> (r: Result<
        Option<RequestContext>,
        CoreError,
    >)
        ensures
            *final(self) == *old(self),
            r matches Ok(None),
    {
        Ok(None)
    }

    /// `near-v2` completions are not receipt-gated: their fields are opened one by one.
    pub fn decrypt_verified_completion(&mut self, completion: &RelayCompletion) -> (r: Result<
        Option<DecryptedProviderCompletion>,
        CoreError,
    >)
        ensures
            *final(self) == *old(self),
            r matches Ok(None),
    {
        Ok(None)
    }

    /// Opens a payload sealed to this session's client key.
    pub fn decrypt(&mut self, wire: &str) -> (r: Result<Vec<u8>, CoreError>)
        ensures
            *final(self) == *old(self),
            decrypt_spec(old(self).keypair.x25519_secret@, wire@, r),
            old(self).keypair.wf() ==> forall|p: Seq<u8>|
                p.len() < aead_max_plaintext() && #[trigger] seals(
                    edwards_to_montgomery(old(self).keypair.public_key()),
                    wire@,
                    p,
                ) ==> (r matches Ok(v) && v@ == p),
    {
        self.keypair.decrypt(wire)
    }
}

/// A well-formed client key pair's published hex decodes back to its key: the session of a model
/// whose verified key is that hex encrypts to exactly that client.
pub proof fn lemma_published_key_decodes(kp: ClientKeypair)
    requires
        kp.wf(),
        kp.public_hex@ == hex_encode(kp.public_key()),
    ensures
        byte_len(hex_body(kp.public_hex@)) == 64,
        hex_decode(hex_body(kp.public_hex@)) == Some(kp.public_key()),
{
    let text = kp.public_hex@;
    let key = kp.public_key();
    lemma_hex_encode_chars(key, 0);
    lemma_hex_encode_chars(key, text.len() - 1);
    lemma_hex_encode_chars(key, 1);
    lemma_trim_noop(text);
    assert(hex_body(text) == text);
    assert forall|i: int| 0 <= i < text.len() implies (#[trigger] text[i] as u32) < 128 by {
        lemma_hex_encode_chars(key, i);
    }
    lemma_ascii_byte_len(text);
    crate::hex::lemma_hex_roundtrip(key);
}

/// What a session created for a client's published key encrypts, that client decrypts: the
/// session's model key is the client's key, so every payload the session seals is sealed to the
/// client (and `ClientKeypair::decrypt` opens it).
pub proof fn law_session_seals_to_client(
    client: ClientKeypair,
    session: NearSession,
    wire: Seq<char>,
    plaintext: Seq<u8>,
)
    requires
        client.wf(),
        client.public_hex@ == hex_encode(client.public_key()),
        Some(session.model_pub@) == hex_decode(hex_body(client.public_hex@)),
        seals(edwards_to_montgomery(session.model_pub@), wire, plaintext),
    ensures
        seals(edwards_to_montgomery(client.public_key()), wire, plaintext),
{
    lemma_published_key_decodes(client);
}

} // verus!
