//! The decisions behind the desktop command surface: key format and masking, status snapshots,
//! and attestation summaries for the trust panel.

use vstd::prelude::*;

use crate::events::AttestationSummary;
use crate::history::{clone_checks, clone_optional, same_check};
use crate::openai::opt_view;
use crate::provider::VerifiedModel;
use crate::relay::RelayModel;
use crate::text::{concat2, has_prefix, starts_with, trim, trim_str};

verus! {

#[derive(Debug)]
pub struct ProxyStatus {
    pub running: bool,
    pub port: u16,
    pub base_url: String,
    pub api_key_present: bool,
    pub active_requests: u32,
    pub total_requests: u64,
    pub total_prompt_tokens: u64,
    pub total_completion_tokens: u64,
    pub version: String,
    pub error: Option<String>,
}

#[derive(Debug)]
pub struct ApiKeyStatus {
    pub present: bool,
    pub masked: Option<String>,
}

#[derive(Debug)]
pub struct ModelInfo {
    pub id: String,
    pub label: String,
    pub model: String,
    pub base_url: String,
}

/// The last (up to) four characters of `s`.
pub open spec fn tail4(s: Seq<char>) -> Seq<char> {
    if s.len() <= 4 {
        s
    } else {
        s.subrange(s.len() - 4, s.len() as int)
    }
}

/// A present key shown only by its prefix and its last four characters.
pub fn mask(key: &str) -> (r: ApiKeyStatus)
    ensures
        r.present,
        opt_view(r.masked) == Some("axm_\u{2026}"@ + tail4(key@)),
{
    let n = key.unicode_len();
    let from = if n <= 4 {
        0
    } else {
        n - 4
    };
    let tail = key.substring_char(from, n);
    proof {
        if n <= 4 {
            assert(key@.subrange(0, n as int) =~= key@);
        }
    }
    ApiKeyStatus { present: true, masked: Some(concat2("axm_\u{2026}", tail)) }
}

/// The status of an absent key.
pub fn no_key() -> (r: ApiKeyStatus)
    ensures
        !r.present,
        r.masked is None,
{
    ApiKeyStatus { present: false, masked: None }
}

/// A key as entered: surrounding whitespace removed; it must start with `axm_`.
pub fn check_api_key(key: &str) -> (r: Result<String, String>)
    ensures
        has_prefix(trim(key@), "axm_"@) ==> (r matches Ok(k) && k@ == trim(key@)),
        !has_prefix(trim(key@), "axm_"@) ==> (r matches Err(e) && e@ == "API keys start with axm_"@),
{
    let trimmed = trim_str(key);
    if !starts_with(trimmed, "axm_") {
        return Err(String::from_str("API keys start with axm_"));
    }
    Ok(String::from_str(trimmed))
}

/// The summary of a verified model.
pub fn summary(model_id: &str, base_url: &str, provider: &str, v: &VerifiedModel) -> (r: AttestationSummary)
    ensures
        r.model_id@ == model_id@,
        r.base_url@ == base_url@,
        r.provider@ == provider@,
        r.verified,
        opt_view(r.model_pubkey_hex) == Some(v.model_public_key_hex@),
        opt_view(r.tls_fingerprint) == opt_view(v.tls_fingerprint),
        r.checks@.len() == v.checks@.len(),
        forall|i: int| 0 <= i < v.checks@.len() ==> same_check(#[trigger] r.checks@[i], v.checks@[i]),
        r.error is None,
{
    AttestationSummary {
        model_id: String::from_str(model_id),
        base_url: String::from_str(base_url),
        provider: String::from_str(provider),
        verified: true,
        model_pubkey_hex: Some(v.model_public_key_hex.clone()),
        tls_fingerprint: clone_optional(&v.tls_fingerprint),
        checks: clone_checks(&v.checks),
        error: None,
    }
}

/// The summary of a model whose verification failed with `error`.
pub fn failed_summary(model: &RelayModel, error: &str) -> (r: AttestationSummary)
    ensures
        r.model_id@ == model.id@,
        r.base_url@ == model.base_url@,
        r.provider@ == model.provider@,
        !r.verified,
        r.model_pubkey_hex is None,
        r.tls_fingerprint is None,
        r.checks@.len() == 0,
        opt_view(r.error) == Some(error@),
{
    AttestationSummary {
        model_id: model.id.clone(),
        base_url: model.base_url.clone(),
        provider: model.provider.clone(),
        verified: false,
        model_pubkey_hex: None,
        tls_fingerprint: None,
        checks: Vec::new(),
        error: Some(String::from_str(error)),
    }
}

/// The catalog entry as the UI lists it.
pub fn model_info(m: &RelayModel) -> (r: ModelInfo)
    ensures
        r.id@ == m.id@,
        r.label@ == m.label@,
        r.model@ == m.model@,
        r.base_url@ == m.base_url@,
{
    ModelInfo {
        id: m.id.clone(),
        label: m.label.clone(),
        model: m.model.clone(),
        base_url: m.base_url.clone(),
    }
}

/// The error shown when the backend rejects the configured key or catalog.
pub fn backend_validation_error(detail: &str) -> (r: String)
    ensures
        r@ == "Backend validation failed: "@ + detail@,
{
    concat2("Backend validation failed: ", detail)
}

} // verus!
