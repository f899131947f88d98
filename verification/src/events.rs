//! Events and status records the proxy publishes for the UI and keeps in its request history.
//! Request records hold metadata only, never message content.

use vstd::prelude::*;

use crate::provider::VerificationCheck;
use crate::text::string_is;

verus! {

#[derive(Clone, Copy, Debug, PartialEq, Eq, Structural)]
pub enum RequestPhase {
    Started,
    Attesting,
    Streaming,
    Completed,
    Failed,
}

#[derive(Debug)]
pub struct RequestEvent {
    pub id: String,
    pub phase: RequestPhase,
    pub model: String,
    pub prompt_tokens: Option<u32>,
    pub completion_tokens: Option<u32>,
    pub duration_ms: Option<u64>,
    pub error_kind: Option<String>,
}

/// How a request ended.
#[derive(Clone, Copy, Debug, PartialEq, Eq, Structural)]
pub enum RequestTerminalStatus {
    Completed,
    Failed,
    Cancelled,
}

/// Which encrypted request path was used. Each flag records one lifecycle fact, so a request is
/// labelled fully verified only when all of them and a completed terminal status are present.
#[derive(Debug)]
pub struct E2eeAuditReceipt {
    pub protocol: Option<String>,
    pub encryption_version: Option<u8>,
    pub request_encrypted: bool,
    pub backend_key_accepted: bool,
    pub response_decrypted: bool,
    pub ephemeral_client_key: bool,
}

impl Default for E2eeAuditReceipt {
    fn default() -> (r: Self)
        ensures
            r.protocol is None,
            r.encryption_version is None,
            !r.request_encrypted,
            !r.backend_key_accepted,
            !r.response_decrypted,
            !r.ephemeral_client_key,
    {
        E2eeAuditReceipt {
            protocol: None,
            encryption_version: None,
            request_encrypted: false,
            backend_key_accepted: false,
            response_decrypted: false,
            ephemeral_client_key: false,
        }
    }
}

/// Metadata of the locally verified attestation a request used. The model key appears only as a
/// SHA-256 fingerprint.
#[derive(Debug)]
pub struct TeeAuditReceipt {
    pub verified: bool,
    pub verified_at_unix_ms: Option<u64>,
    pub age_ms: Option<u64>,
    pub model_key_sha256: Option<String>,
    pub tls_spki_sha256: Option<String>,
    pub checks: Vec<VerificationCheck>,
}

impl Default for TeeAuditReceipt {
    fn default() -> (r: Self)
        ensures
            !r.verified,
            r.verified_at_unix_ms is None,
            r.age_ms is None,
            r.model_key_sha256 is None,
            r.tls_spki_sha256 is None,
            r.checks@.len() == 0,
    {
        TeeAuditReceipt {
            verified: false,
            verified_at_unix_ms: None,
            age_ms: None,
            model_key_sha256: None,
            tls_spki_sha256: None,
            checks: Vec::new(),
        }
    }
}

/// One metadata-only request record.
#[derive(Debug)]
pub struct RequestLogEntry {
    pub id: String,
    pub model: String,
    pub provider: String,
    pub stream: bool,
    pub status: RequestTerminalStatus,
    pub started_at_unix_ms: u64,
    pub completed_at_unix_ms: u64,
    pub prompt_tokens: u32,
    pub completion_tokens: u32,
    pub duration_ms: u64,
    pub finish_reason: Option<String>,
    pub error_kind: Option<String>,
    pub e2ee: E2eeAuditReceipt,
    pub tee: TeeAuditReceipt,
}

/// A completed request over a verified TEE with every `near-v2` lifecycle fact present.
pub open spec fn is_verified_completion(e: RequestLogEntry) -> bool {
    &&& e.status == RequestTerminalStatus::Completed
    &&& e.tee.verified
    &&& e.e2ee.request_encrypted
    &&& e.e2ee.backend_key_accepted
    &&& e.e2ee.response_decrypted
    &&& e.e2ee.ephemeral_client_key
    &&& e.e2ee.protocol matches Some(p) && p@ == "near-v2"@
    &&& e.e2ee.encryption_version == Some(2u8)
}

impl RequestLogEntry {
    /// Whether the request reached a valid encrypted terminal completion; stricter than checking
    /// the protocol label alone.
    pub fn verified_completed(&self) -> (r: bool)
        ensures
            r == is_verified_completion(*self),
    {
        let protocol_ok = match &self.e2ee.protocol {
            Some(p) => string_is(p, "near-v2"),
            None => false,
        };
        self.status == RequestTerminalStatus::Completed && self.tee.verified
            && self.e2ee.request_encrypted && self.e2ee.backend_key_accepted
            && self.e2ee.response_decrypted && self.e2ee.ephemeral_client_key && protocol_ok
            && match self.e2ee.encryption_version {
            Some(v) => v == 2,
            None => false,
        }
    }
}

/// One model's attestation outcome, for display.
#[derive(Debug)]
pub struct AttestationSummary {
    pub model_id: String,
    pub base_url: String,
    pub provider: String,
    pub verified: bool,
    pub model_pubkey_hex: Option<String>,
    pub tls_fingerprint: Option<String>,
    pub checks: Vec<VerificationCheck>,
    pub error: Option<String>,
}

/// A record counts as a verified completion exactly when the request completed, its TEE was
/// verified, the request was encrypted to a backend key that was accepted with a fresh client key,
/// the response was decrypted, and the protocol is NEAR v2 with encryption version 2: a record
/// missing any one of these, an unverified TEE among them, is never reported as one.
pub proof fn law_verified_completion_needs_every_fact(e: RequestLogEntry)
    ensures
        is_verified_completion(e) ==> e.status == RequestTerminalStatus::Completed,
        is_verified_completion(e) ==> e.tee.verified,
        is_verified_completion(e) ==> e.e2ee.request_encrypted,
        is_verified_completion(e) ==> e.e2ee.backend_key_accepted,
        is_verified_completion(e) ==> e.e2ee.response_decrypted,
        is_verified_completion(e) ==> e.e2ee.ephemeral_client_key,
        is_verified_completion(e) ==> (e.e2ee.protocol matches Some(p) && p@ == "near-v2"@),
        is_verified_completion(e) ==> e.e2ee.encryption_version == Some(2u8),
        (e.status == RequestTerminalStatus::Completed && e.tee.verified && e.e2ee.request_encrypted
            && e.e2ee.backend_key_accepted && e.e2ee.response_decrypted
            && e.e2ee.ephemeral_client_key && (e.e2ee.protocol matches Some(p) && p@ == "near-v2"@)
            && e.e2ee.encryption_version == Some(2u8)) ==> is_verified_completion(e),
{
}

} // verus!
