//! Local verification of NEAR TEE attestation evidence.
//!
//! Every check that is a function of already-fetched evidence lives here: the report checks of
//! [`verify_report`], the TDX `report_data` binding, the NVIDIA verdict, quote and JWT decoding,
//! and the live TLS SPKI fingerprint. The attested Ed25519 signing key is the E2EE model key; it is
//! bound to the TDX quote's `report_data` and to the live TLS SPKI, so encrypting to it is safe
//! only when the live connection presents that same SPKI.

use vstd::prelude::*;

use base64::Engine;
use x509_parser::prelude::{FromDer, X509Certificate};

use crate::crypto::{random_bytes, sha256, sha256_bytes};
use crate::e2ee::{hex_body, report_data_outcome, verify_report_data};
use crate::error::CoreError;
use crate::hex::{decode_hex, encode_hex, hex_decode, hex_encode};
use crate::near::is_near_gateway;
use crate::openai::opt_view;
use crate::provider::{VerificationCheck, VerifiedModel};
use crate::text::{
    byte_len, concat2, concat3, contains_seq, eq_ignore_ascii_case, eq_ignore_ascii_case_str,
    all_ascii, ascii_lowercase, index_of, index_of_char, lowercase, str_eq, strip_0x_str, strip_all_0x, strip_all_0x_str,
    string_is, to_lowercase, trim, trim_end_char, trim_end_char_str, trim_str, utf8_len,
};

verus! {

/// The attestation report served at `{base_url}/attestation/report`. `nvidia_payload` is the GPU
/// evidence as compact JSON text.
#[derive(Debug)]
pub struct AttestationReport {
    pub signing_algo: Option<String>,
    pub signing_public_key: Option<String>,
    pub signing_address: Option<String>,
    pub nonce: Option<String>,
    pub tls_fingerprint: Option<String>,
    pub model_name: Option<String>,
    pub intel_quote: Option<String>,
    pub nvidia_payload: Option<String>,
}

// ---- outside decoders ----

/// Standard base64 (with padding) decoding of the text, or `None` when refused.
pub uninterp spec fn base64_standard(text: Seq<char>) -> Option<Seq<u8>>;

/// URL-safe base64 without padding, decoded, or `None` when refused.
pub uninterp spec fn base64_url_no_pad(text: Seq<char>) -> Option<Seq<u8>>;

/// The DER SubjectPublicKeyInfo of an X.509 certificate in DER, or `None` when it does not parse.
pub uninterp spec fn certificate_spki(der: Seq<u8>) -> Option<Seq<u8>>;

/// The display text of the `base64` crate's error for refused text.
pub uninterp spec fn base64_error_text(text: Seq<char>) -> Seq<char>;

/// `general_purpose::STANDARD.decode`; a refusal carries the crate's error text.
#[verifier::external_body]
pub fn decode_base64_standard(text: &str) -> (r: Result<Vec<u8>, String>)
    ensures
        r is Ok <==> base64_standard(text@) is Some,
        r matches Ok(v) ==> Some(v@) == base64_standard(text@),
        r matches Err(e) ==> e@ == base64_error_text(text@),
{
    base64::engine::general_purpose::STANDARD.decode(text.as_bytes()).map_err(|e| e.to_string())
}

/// `general_purpose::URL_SAFE_NO_PAD.decode`. The error text is the `base64` crate's message, not
/// stated.
#[verifier::external_body]
fn decode_base64_url_no_pad(text: &str) -> (r: Result<Vec<u8>, String>)
    ensures
        r is Ok <==> base64_url_no_pad(text@) is Some,
        r matches Ok(v) ==> Some(v@) == base64_url_no_pad(text@),
{
    base64::engine::general_purpose::URL_SAFE_NO_PAD.decode(text.as_bytes()).map_err(
        |e| e.to_string(),
    )
}

/// `X509Certificate::from_der` followed by `public_key().raw`. The error text is the parser's
/// message, not stated.
#[verifier::external_body]
fn leaf_spki(der: &[u8]) -> (r: Result<Vec<u8>, String>)
    ensures
        r is Ok <==> certificate_spki(der@) is Some,
        r matches Ok(v) ==> Some(v@) == certificate_spki(der@),
{
    match X509Certificate::from_der(der) {
        Ok((_, cert)) => Ok(cert.public_key().raw.to_vec()),
        Err(e) => Err(e.to_string()),
    }
}

// ---- checks ----

pub open spec fn tdx_status_ok(status: Seq<char>) -> bool {
    status == "UpToDate"@ || status == "SWHardeningNeeded"@
}

pub open spec fn gpu_status_ok(status: Seq<char>) -> bool {
    status == "verified"@
}

/// The three NEAR display checks, in order: the TLS binding, Intel TDX with its status, NVIDIA
/// GPU with its status.
pub open spec fn near_check_rows(r: Seq<VerificationCheck>, intel_status: Seq<char>, nvidia_status: Seq<char>) -> bool {
    &&& r.len() == 3
    &&& r[0].id@ == "tls_binding"@ && r[0].label@ == "TLS binding"@ && r[0].status@ == "bound"@
        && r[0].ok
    &&& r[1].id@ == "intel_tdx"@ && r[1].label@ == "Intel TDX"@ && r[1].status@ == intel_status
        && r[1].ok == tdx_status_ok(intel_status)
    &&& r[2].id@ == "nvidia_gpu"@ && r[2].label@ == "NVIDIA GPU"@ && r[2].status@ == nvidia_status
        && r[2].ok == gpu_status_ok(nvidia_status)
}

/// NEAR's attestation surface as ordered display checks.
pub fn near_checks(intel_status: &str, nvidia_status: &str) -> (r: Vec<VerificationCheck>)
    ensures
        near_check_rows(r@, intel_status@, nvidia_status@),
{
    let mut checks: Vec<VerificationCheck> = Vec::new();
    checks.push(VerificationCheck::new("tls_binding", "TLS binding", String::from_str("bound"), true));
    let intel_ok = str_eq(intel_status, "UpToDate") || str_eq(intel_status, "SWHardeningNeeded");
    checks.push(
        VerificationCheck::new("intel_tdx", "Intel TDX", String::from_str(intel_status), intel_ok),
    );
    checks.push(
        VerificationCheck::new(
            "nvidia_gpu",
            "NVIDIA GPU",
            String::from_str(nvidia_status),
            str_eq(nvidia_status, "verified"),
        ),
    );
    checks
}

/// A quote given as hex (optionally `0x`-prefixed) or, failing that, as standard base64.
pub open spec fn quote_bytes(value: Seq<char>) -> Option<Seq<u8>> {
    match hex_decode(hex_body(value)) {
        Some(b) => Some(b),
        None => base64_standard(hex_body(value)),
    }
}

/// Decodes a hex-or-base64 quote string to raw bytes.
pub fn decode_quote(value: &str) -> (r: Result<Vec<u8>, CoreError>)
    ensures
        quote_bytes(value@) matches Some(b) ==> (r matches Ok(v) && v@ == b),
        quote_bytes(value@) is None ==> (r matches Err(CoreError::Attestation(_))),
{
    let stripped = strip_0x_str(trim_str(value));
    match decode_hex(stripped) {
        Ok(bytes) => Ok(bytes),
        Err(_) => match decode_base64_standard(stripped) {
            Ok(bytes) => Ok(bytes),
            Err(e) => Err(
                CoreError::Attestation(concat2("quote is neither hex nor base64: ", e.as_str())),
            ),
        },
    }
}

/// SHA-256 (lowercase hex) of the leaf certificate's DER SubjectPublicKeyInfo: what attestation
/// binds as the TLS fingerprint, computed independently from the live connection.
pub fn spki_sha256(leaf_cert_der: &[u8]) -> (r: Result<String, CoreError>)
    ensures
        certificate_spki(leaf_cert_der@) matches Some(spki) ==> (r matches Ok(h) && h@
            == hex_encode(sha256(spki))),
        certificate_spki(leaf_cert_der@) is None ==> (r matches Err(CoreError::Attestation(_))),
{
    match leaf_spki(leaf_cert_der) {
        Ok(spki) => Ok(encode_hex(sha256_bytes(spki.as_slice()).as_slice())),
        Err(e) => Err(CoreError::Attestation(concat2("bad leaf cert: ", e.as_str()))),
    }
}

/// Canonical hex text: trimmed, every leading `0x` removed, lowercased (ASCII text letter by
/// letter).
pub open spec fn canonical_hex(value: Seq<char>) -> Seq<char> {
    let t = strip_all_0x(trim(value));
    if all_ascii(t) {
        ascii_lowercase(t)
    } else {
        lowercase(t)
    }
}

pub fn strip_hex(value: &str) -> (r: String)
    ensures
        r@ == canonical_hex(value@),
{
    to_lowercase(strip_all_0x_str(trim_str(value)))
}

/// The report's E2EE key text: `signing_public_key`, else `signing_address`.
pub open spec fn report_key_text(report: AttestationReport) -> Option<Seq<char>> {
    match report.signing_public_key {
        Some(k) => Some(k@),
        None => match report.signing_address {
            Some(k) => Some(k@),
            None => None,
        },
    }
}

/// The outcome of the pure report checks: the model key and the attested fingerprint (both in
/// canonical hex), or the failure message. Checks run in this order.
pub open spec fn report_outcome(
    report: AttestationReport,
    live_spki_hash: Seq<char>,
    expected_nonce: Seq<char>,
    expected_model: Seq<char>,
    intel_status: Seq<char>,
    nvidia_status: Seq<char>,
) -> Result<(Seq<char>, Seq<char>), Seq<char>> {
    if !(report.signing_algo matches Some(a) && a@ == "ed25519"@) {
        Err("report is not ed25519 (E2EE) signed"@)
    } else if report_key_text(report) is None {
        Err("no signing public key in report"@)
    } else if byte_len(canonical_hex(report_key_text(report)->0)) != 64 || hex_decode(
        canonical_hex(report_key_text(report)->0),
    ) is None {
        Err("signing public key is not 32-byte hex"@)
    } else if report.nonce is None {
        Err("attestation missing nonce"@)
    } else if !eq_ignore_ascii_case(report.nonce->0@, expected_nonce) {
        Err("attestation nonce mismatch"@)
    } else if report.model_name matches Some(name) && name@ != expected_model {
        Err("attested model "@ + report.model_name->0@ + " != requested "@ + expected_model)
    } else if report.tls_fingerprint is None {
        Err("attestation missing tls fingerprint"@)
    } else if canonical_hex(report.tls_fingerprint->0@) != canonical_hex(live_spki_hash) {
        Err("live TLS SPKI does not match attested fingerprint"@)
    } else if !tdx_status_ok(intel_status) {
        Err("TDX status not acceptable: "@ + intel_status)
    } else if !gpu_status_ok(nvidia_status) {
        Err("GPU status not verified: "@ + nvidia_status)
    } else {
        Ok((canonical_hex(report_key_text(report)->0), canonical_hex(report.tls_fingerprint->0@)))
    }
}

fn attestation_error(message: &str) -> (r: CoreError)
    ensures
        r matches CoreError::Attestation(m) && m@ == message@,
{
    CoreError::Attestation(String::from_str(message))
}

/// The report's E2EE key in canonical hex.
pub fn report_key(report: &AttestationReport) -> (r: Result<String, CoreError>)
    ensures
        report_key_text(*report) matches Some(k) ==> (r matches Ok(v) && v@ == canonical_hex(k)),
        report_key_text(*report) is None ==> (r matches Err(CoreError::Attestation(m)) && m@
            == "no signing public key in report"@),
{
    match &report.signing_public_key {
        Some(k) => Ok(strip_hex(k.as_str())),
        None => match &report.signing_address {
            Some(k) => Ok(strip_hex(k.as_str())),
            None => Err(attestation_error("no signing public key in report")),
        },
    }
}

/// The report's attested TLS fingerprint in canonical hex.
pub fn report_fingerprint(report: &AttestationReport) -> (r: Result<String, CoreError>)
    ensures
        report.tls_fingerprint matches Some(f) ==> (r matches Ok(v) && v@ == canonical_hex(f@)),
        report.tls_fingerprint is None ==> (r matches Err(CoreError::Attestation(m)) && m@
            == "attestation missing tls fingerprint"@),
{
    match &report.tls_fingerprint {
        Some(f) => Ok(strip_hex(f.as_str())),
        None => Err(attestation_error("attestation missing tls fingerprint")),
    }
}

/// Pure verification of a fetched report against the live SPKI hash, our nonce, the expected
/// model and the hardware statuses computed by the callers. Returns the verified model key.
pub fn verify_report(
    report: &AttestationReport,
    live_spki_hash: &str,
    expected_nonce: &str,
    expected_model: &str,
    intel_status: &str,
    nvidia_status: &str,
) -> (r: Result<VerifiedModel, CoreError>)
    ensures
        ({
            let outcome = report_outcome(
                *report,
                live_spki_hash@,
                expected_nonce@,
                expected_model@,
                intel_status@,
                nvidia_status@,
            );
            &&& outcome matches Ok((key, fp)) ==> (r matches Ok(v) && v.model_public_key_hex@ == key
                && opt_view(v.tls_fingerprint) == Some(fp) && near_check_rows(
                v.checks@,
                intel_status@,
                nvidia_status@,
            ) && v.provider_state is None && v.expires_at_unix is None)
            &&& outcome matches Err(m) ==> (r matches Err(CoreError::Attestation(e)) && e@ == m)
        }),
{
    let algo_ok = match &report.signing_algo {
        Some(a) => string_is(a, "ed25519"),
        None => false,
    };
    if !algo_ok {
        return Err(attestation_error("report is not ed25519 (E2EE) signed"));
    }
    let key = report_key(report)?;
    if utf8_len(key.as_str()) != 64 || decode_hex(key.as_str()).is_err() {
        return Err(attestation_error("signing public key is not 32-byte hex"));
    }
    match &report.nonce {
        Some(n) => {
            if !eq_ignore_ascii_case_str(n.as_str(), expected_nonce) {
                return Err(attestation_error("attestation nonce mismatch"));
            }
        },
        None => {
            return Err(attestation_error("attestation missing nonce"));
        },
    }
    match &report.model_name {
        Some(name) => {
            if !str_eq(name.as_str(), expected_model) {
                let mut message = concat3("attested model ", name.as_str(), " != requested ");
                message.append(expected_model);
                return Err(CoreError::Attestation(message));
            }
        },
        None => {},
    }
    let fp = report_fingerprint(report)?;
    let live = strip_hex(live_spki_hash);
    if !string_is(&fp, live.as_str()) {
        return Err(attestation_error("live TLS SPKI does not match attested fingerprint"));
    }
    if !(str_eq(intel_status, "UpToDate") || str_eq(intel_status, "SWHardeningNeeded")) {
        return Err(CoreError::Attestation(concat2("TDX status not acceptable: ", intel_status)));
    }
    if !str_eq(nvidia_status, "verified") {
        return Err(CoreError::Attestation(concat2("GPU status not verified: ", nvidia_status)));
    }
    Ok(
        VerifiedModel {
            model_public_key_hex: key,
            tls_fingerprint: Some(fp),
            checks: near_checks(intel_status, nvidia_status),
            provider_state: None,
            expires_at_unix: None,
        },
    )
}

/// The check that follows Intel DCAP verification of a TD quote: its 64-byte `report_data` must
/// bind the signing key, the TLS fingerprint and the nonce. Returns the quote's TCB status.
pub fn check_tdx_report(
    report_data: &[u8],
    signing_key_hex: &str,
    tls_fingerprint_hex: &str,
    nonce_hex: &str,
    status: String,
) -> (r: Result<String, CoreError>)
    ensures
        ({
            let outcome = report_data_outcome(
                hex_encode(report_data@),
                signing_key_hex@,
                tls_fingerprint_hex@,
                nonce_hex@,
            );
            &&& outcome is None ==> (r matches Err(CoreError::Hex(_)))
            &&& outcome == Some(true) ==> (r matches Ok(s) && s@ == status@)
            &&& outcome == Some(false) ==> (r matches Err(CoreError::Attestation(m)) && m@
                == "TDX report_data binding mismatch"@)
        }),
{
    let report_data_hex = encode_hex(report_data);
    if !verify_report_data(report_data_hex.as_str(), signing_key_hex, tls_fingerprint_hex, nonce_hex)? {
        return Err(attestation_error("TDX report_data binding mismatch"));
    }
    Ok(status)
}

/// Whether the GPU payload's own nonce (when it has one) matches ours, before the payload is sent
/// for verification.
pub fn check_gpu_payload_nonce(payload_nonce: Option<&str>, expected_nonce: &str) -> (r: Result<
    (),
    CoreError,
>)
    ensures
        r is Ok <==> (payload_nonce matches Some(n) ==> eq_ignore_ascii_case(n@, expected_nonce@)),
        r matches Err(e) ==> (e matches CoreError::Attestation(m) && m@
            == "GPU payload nonce mismatch"@),
{
    match payload_nonce {
        Some(n) => {
            if !eq_ignore_ascii_case_str(n, expected_nonce) {
                return Err(attestation_error("GPU payload nonce mismatch"));
            }
            Ok(())
        },
        None => Ok(()),
    }
}

/// The members of a GPU attestation verdict that decide it.
#[derive(Debug)]
pub enum OverallResult {
    Bool(bool),
    Text(String),
    /// Present with another JSON type.
    Other,
    Missing,
}

#[derive(Debug)]
pub struct GpuVerdict {
    pub overall: OverallResult,
    /// `eat_nonce`, when it is a string.
    pub eat_nonce: Option<String>,
}

pub open spec fn overall_success(o: OverallResult) -> bool {
    match o {
        OverallResult::Bool(b) => b,
        OverallResult::Text(s) => s@ == "true"@ || s@ == "success"@ || s@ == "PASS"@ || s@
            == "pass"@,
        _ => false,
    }
}

/// The GPU status: `verified` exactly when the overall result is a success and `eat_nonce` equals
/// the expected nonce, ignoring ASCII case.
pub fn gpu_verdict_status(verdict: &GpuVerdict, expected_nonce: &str) -> (r: Result<
    String,
    CoreError,
>)
    ensures
        !overall_success(verdict.overall) ==> (r matches Err(CoreError::Attestation(m)) && m@
            == "GPU overall attestation result not success"@),
        overall_success(verdict.overall) && (verdict.eat_nonce matches Some(n)
            && eq_ignore_ascii_case(n@, expected_nonce@)) ==> (r matches Ok(s) && s@ == "verified"@),
        overall_success(verdict.overall) && !(verdict.eat_nonce matches Some(n)
            && eq_ignore_ascii_case(n@, expected_nonce@)) ==> (r matches Err(
            CoreError::Attestation(m),
        ) && m@ == "GPU eat_nonce mismatch"@),
{
    let ok = match &verdict.overall {
        OverallResult::Bool(b) => *b,
        OverallResult::Text(s) => string_is(s, "true") || string_is(s, "success") || string_is(
            s,
            "PASS",
        ) || string_is(s, "pass"),
        _ => false,
    };
    if !ok {
        return Err(attestation_error("GPU overall attestation result not success"));
    }
    match &verdict.eat_nonce {
        Some(n) => {
            if eq_ignore_ascii_case_str(n.as_str(), expected_nonce) {
                Ok(String::from_str("verified"))
            } else {
                Err(attestation_error("GPU eat_nonce mismatch"))
            }
        },
        None => Err(attestation_error("GPU eat_nonce mismatch")),
    }
}

/// The second `.`-separated segment of a JWT, if it has one.
pub open spec fn jwt_payload_segment(jwt: Seq<char>) -> Option<Seq<char>> {
    let i = index_of_char(jwt, '.');
    if i >= jwt.len() {
        None
    } else {
        let rest = jwt.subrange(i + 1, jwt.len() as int);
        Some(rest.subrange(0, index_of_char(rest, '.')))
    }
}

/// The decoded (URL-safe base64, unpadded) payload segment of a JWT.
pub fn decode_jwt_payload(jwt: &str) -> (r: Result<Vec<u8>, CoreError>)
    ensures
        jwt_payload_segment(jwt@) is None ==> (r matches Err(CoreError::Attestation(m)) && m@
            == "malformed JWT"@),
        jwt_payload_segment(jwt@) matches Some(seg) ==> match base64_url_no_pad(seg) {
            Some(b) => r matches Ok(v) && v@ == b,
            None => r matches Err(CoreError::Attestation(_)),
        },
{
    let n = jwt.unicode_len();
    let first = index_of(jwt, '.');
    if first >= n {
        return Err(attestation_error("malformed JWT"));
    }
    let rest = jwt.substring_char(first + 1, n);
    let second = index_of(rest, '.');
    let segment = rest.substring_char(0, second);
    match decode_base64_url_no_pad(segment) {
        Ok(bytes) => Ok(bytes),
        Err(e) => Err(CoreError::Attestation(concat2("bad JWT payload b64: ", e.as_str()))),
    }
}

/// A fresh random 32-byte nonce in lowercase hex.
pub fn random_nonce_hex() -> (r: String)
    ensures
        exists|b: Seq<u8>| b.len() == 32 && r@ == hex_encode(b),
{
    let bytes = random_bytes(32);
    encode_hex(bytes.as_slice())
}

pub open spec fn report_url_spec(base_url: Seq<char>, model: Seq<char>, nonce: Seq<char>) -> Seq<
    char,
> {
    let base = trim_end_char(base_url, '/');
    let url = base + "/attestation/report?signing_algo=ed25519&nonce="@ + nonce
        + "&include_tls_fingerprint=true"@;
    if contains_seq(base, "cloud-api.near.ai"@) {
        url + "&model="@ + model
    } else {
        url
    }
}

/// The attestation report URL for a model host and nonce; the multi-model gateway also gets an
/// explicit model selector.
pub fn report_url(base_url: &str, model: &str, nonce: &str) -> (r: String)
    ensures
        r@ == report_url_spec(base_url@, model@, nonce@),
{
    let base = trim_end_char_str(base_url, '/');
    let mut url = concat3(base, "/attestation/report?signing_algo=ed25519&nonce=", nonce);
    url.append("&include_tls_fingerprint=true");
    if is_near_gateway(base) {
        url.append("&model=");
        url.append(model);
    }
    url
}

/// The Intel TDX TCB statuses a report is accepted under are exactly `UpToDate` and
/// `SWHardeningNeeded`, and the NVIDIA status accepted is exactly `verified`: the intel check row
/// is passed for those two statuses alone, both verify an otherwise bound report alike (same key,
/// same fingerprint, same refusal), and any other status never verifies one.
pub proof fn law_accepted_tdx_statuses(
    report: AttestationReport,
    live_spki_hash: Seq<char>,
    expected_nonce: Seq<char>,
    expected_model: Seq<char>,
    intel_status: Seq<char>,
    nvidia_status: Seq<char>,
)
    ensures
        tdx_status_ok(intel_status) <==> (intel_status == "UpToDate"@ || intel_status
            == "SWHardeningNeeded"@),
        gpu_status_ok(nvidia_status) <==> nvidia_status == "verified"@,
        report_outcome(report, live_spki_hash, expected_nonce, expected_model, "SWHardeningNeeded"@, nvidia_status)
            == report_outcome(report, live_spki_hash, expected_nonce, expected_model, "UpToDate"@, nvidia_status),
        !(intel_status == "UpToDate"@ || intel_status == "SWHardeningNeeded"@) ==> report_outcome(
            report,
            live_spki_hash,
            expected_nonce,
            expected_model,
            intel_status,
            nvidia_status,
        ) is Err,
        nvidia_status != "verified"@ ==> report_outcome(
            report,
            live_spki_hash,
            expected_nonce,
            expected_model,
            intel_status,
            nvidia_status,
        ) is Err,
{
}

} // verus!
