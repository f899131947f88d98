use axiom_proxy::dcap::{dcap_verify, intel_collateral, verify_gateway_quote};
use axiom_proxy::gateway::{
    replay_rtmr3, verify_phala_model, verify_worker_session, PhalaAttestationState, PhalaChallenge,
    PhalaWorkerSession, ProviderAttestationEvidence, ProviderE2eeKey,
};
use axiom_proxy::phala::{
    decrypt_field, encrypt_field, exact_plaintext_body, response_aad, seal_field, sha256_digest, PhalaCipher,
};
use axiom_proxy::provider::{PlainProviderMessage, PlainProviderRequest, VerifiedModel};
use axiom_proxy::relay::{RelayCompletion, RelayUsage};
use axiom_proxy::value::{canonical_text, parse_json, JsonValue};
use base64::Engine;
use ed25519_dalek::{Signer, SigningKey};
use sha2::{Digest, Sha256, Sha384};

fn now_unix() -> u64 {
    std::time::SystemTime::now().duration_since(std::time::UNIX_EPOCH).unwrap().as_secs()
}

fn json(text: &str) -> JsonValue {
    parse_json(text.as_bytes()).unwrap()
}

fn plain_request(model: &str) -> PlainProviderRequest {
    PlainProviderRequest {
        model: model.into(),
        messages: vec![PlainProviderMessage {
            role: "user".into(),
            content: Some("hello".into()),
            assistant_null_content: false,
            has_extended_fields: false,
        }],
        max_tokens: 8,
        stream: false,
        sampling: None,
        response_format: None,
        reasoning_effort: None,
        has_tools: false,
    }
}

#[test]
fn exact_plaintext_body_matches_aci_order() {
    let request = plain_request("org/model");
    let bytes = exact_plaintext_body(&request, &["aa".repeat(32)]).unwrap();
    assert_eq!(
        String::from_utf8(bytes).unwrap(),
        format!(
            "{{\"model\":\"org/model\",\"messages\":[{{\"role\":\"user\",\"content\":\"hello\"}}],\"max_tokens\":8,\"stream\":false,\"provider\":{{\"aci_verified\":true,\"aci_session_ids\":[\"{}\"],\"zdr\":true}}}}",
            "aa".repeat(32)
        )
    );
}

#[test]
fn plaintext_body_refuses_tools_and_logit_bias() {
    let mut with_tools = plain_request("m");
    with_tools.has_tools = true;
    assert!(exact_plaintext_body(&with_tools, &[]).is_err());
    let mut bias = plain_request("m");
    bias.sampling = Some(vec![("logit_bias".into(), "{\"5\":-10}".into())]);
    assert_eq!(
        exact_plaintext_body(&bias, &[]).unwrap_err().message(),
        "provider error: Phala does not support logit_bias"
    );
}

#[test]
fn plaintext_body_orders_sampling_and_maps_xhigh_effort() {
    let mut request = plain_request("m");
    request.stream = true;
    request.sampling = Some(vec![("seed".into(), "7".into()), ("temperature".into(), "0.5".into())]);
    request.reasoning_effort = Some("xhigh".into());
    let text = String::from_utf8(exact_plaintext_body(&request, &[]).unwrap()).unwrap();
    assert!(text.ends_with(
        ",\"stream_options\":{\"include_usage\":true},\"temperature\":0.5,\"seed\":7,\"reasoning_effort\":\"max\"}"
    ));
}

#[test]
fn canonical_json_sorts_keys_and_refuses_fractions() {
    let v = json(r#"{"b":1,"a":[true,null,"x\n"],"c":{"z":-3,"y":"é"}}"#);
    assert_eq!(
        canonical_text(&v).unwrap(),
        "{\"a\":[true,null,\"x\\n\"],\"b\":1,\"c\":{\"y\":\"é\",\"z\":-3}}"
    );
    assert!(canonical_text(&json(r#"{"a":1.5}"#)).is_none());
}

#[test]
fn worker_session_rejects_wrong_content_address() {
    let now = now_unix();
    let value = json(&format!(
        r#"{{"session_id":"{}","api_version":"aci/1","established_at":{},"expires_at":{},"claims":{{"tee_attested":{{"status":"asserted"}},"tcb_up_to_date":{{"status":"asserted"}},"gpu_attested":{{"status":"asserted"}}}},"channel_binding":[{{"type":"e2ee_public_key_sha256"}}],"evidence":{{}}}}"#,
        "00".repeat(32),
        now,
        now + 600
    ));
    assert!(verify_worker_session(&value, 30, now)
        .unwrap_err()
        .message()
        .contains("content addressed"));
}

fn addressed_session(now: u64, expires_at: u64) -> (String, JsonValue) {
    let record = format!(
        r#"{{"api_version":"aci/1","established_at":{},"expires_at":{},"claims":{{"tee_attested":{{"status":"Asserted"}},"tcb_up_to_date":{{"status":"asserted"}},"gpu_attested":{{"status":"asserted"}}}},"channel_binding":[{{"type":"tls_spki_sha256"}}],"evidence":{{}}}}"#,
        now - 10,
        expires_at
    );
    let canonical = canonical_text(&json(&record)).unwrap();
    let id = hex::encode(Sha256::digest(canonical.as_bytes()));
    let with_id = format!("{{\"session_id\":\"{}\",{}", id.to_uppercase(), &record[1..]);
    (id, json(&with_id))
}

#[test]
fn content_addressed_worker_session_is_accepted() {
    let now = now_unix();
    let (id, value) = addressed_session(now, now + 600);
    let session = verify_worker_session(&value, 30, now).unwrap();
    assert_eq!(session.session_id, id);
    assert_eq!(session.expires_at, now + 600);
    assert_eq!(hex::encode(Sha256::digest(session.record.as_bytes())), id);
}

#[test]
fn worker_session_close_to_expiry_is_refused() {
    let now = now_unix();
    let (_, value) = addressed_session(now, now + 20);
    assert_eq!(
        verify_worker_session(&value, 30, now).unwrap_err().message(),
        "attestation failed: Phala worker session is expired or too close to expiry"
    );
}

#[test]
fn event_log_replays_rtmr3_and_compose_hash() {
    let digest = "11".repeat(48);
    let log = format!(
        r#"[{{"imr":1,"digest":"ff"}},{{"imr":3,"digest":"{digest}","event":"compose-hash","event_payload":"ABCD"}},{{"imr":3,"digest":"0x22","event":"system-ready"}},{{"imr":3,"digest":"33","event":"compose-hash","event_payload":"ignored"}}]"#
    );
    let (rtmr, compose) = replay_rtmr3(&log).unwrap();
    let mut current = [0u8; 48];
    for d in [hex::decode(&digest).unwrap(), vec![0x22], vec![0x33]] {
        let mut padded = [0u8; 48];
        padded[..d.len()].copy_from_slice(&d);
        current = Sha384::digest([current.as_slice(), padded.as_slice()].concat()).into();
    }
    assert_eq!(rtmr, current);
    assert_eq!(compose, "abcd");
}

#[test]
fn event_log_without_a_unique_compose_hash_is_refused() {
    assert_eq!(
        replay_rtmr3(r#"[{"imr":3,"digest":"00","event":"system-ready"}]"#).unwrap_err().message(),
        "attestation failed: Phala gateway event log has no unique compose measurement"
    );
    assert!(replay_rtmr3("not json").is_err());
    assert_eq!(
        replay_rtmr3("{}").unwrap_err().message(),
        "attestation failed: Phala gateway event log is not an array"
    );
}

struct Gateway {
    signing: SigningKey,
    session_id: String,
    now: u64,
}

fn verified_phala(now: u64) -> (Gateway, VerifiedModel) {
    let signing = SigningKey::from_bytes(&[9u8; 32]);
    let session_id = "ab".repeat(32);
    let state = PhalaAttestationState {
        model: "org/model".into(),
        keyset_digest: "sha256:keyset".into(),
        gateway_public_key_hex: "cd".repeat(32),
        receipt_public_keys: vec![("k1".into(), hex::encode(signing.verifying_key().as_bytes()))],
        worker_sessions: vec![PhalaWorkerSession {
            session_id: session_id.clone(),
            established_at: now - 100,
            expires_at: now + 600,
            record: "{}".into(),
        }],
    };
    let model = VerifiedModel {
        model_public_key_hex: "cd".repeat(32),
        tls_fingerprint: None,
        checks: vec![],
        provider_state: Some(state),
        expires_at_unix: Some(now + 500),
    };
    (Gateway { signing, session_id, now }, model)
}

fn sign_receipt(gw: &Gateway, request_hash: &str, response: &[u8], cited: &str) -> String {
    let unsigned = format!(
        r#"{{"api_version":"aci/1","workload_keyset_digest":"sha256:keyset","model":"org/model","key_id":"k1","served_at":{},"event_log":[{{"type":"request.received","body_hash":"{}"}},{{"type":"response.returned","body_hash":"{}"}},{{"type":"upstream.verified","result":"verified","required":true,"model_id":"m","session_id":"{}"}}]}}"#,
        gw.now,
        request_hash,
        sha256_digest(response),
        cited
    );
    let canonical = canonical_text(&json(&unsigned)).unwrap();
    let signature = gw.signing.sign(canonical.as_bytes());
    format!("{},\"signature\":\"{}\"}}", &unsigned[..unsigned.len() - 1], hex::encode(signature.to_bytes()))
}

fn completion_with(proof: JsonValue) -> RelayCompletion {
    RelayCompletion {
        id: "c".into(),
        model: None,
        encrypted_content: None,
        encrypted_reasoning_content: None,
        encrypted_refusal: None,
        encrypted_tool_calls: vec![],
        finish_reason: None,
        usage: RelayUsage { prompt_tokens: None, completion_tokens: None, total_tokens: None },
        proof: Some(proof),
    }
}

#[test]
fn receipt_gated_completion_decrypts_only_the_bound_response() {
    let now = now_unix();
    let (gw, model) = verified_phala(now);
    let mut session = PhalaCipher.new_session(&model, now).unwrap();
    assert!(session.is_ready(now));
    let context = session.prepare_request_context(&plain_request("org/model")).unwrap();
    assert_eq!(context.session_ids, vec![gw.session_id.clone()]);
    assert_eq!(context.keyset_digest, "sha256:keyset");
    let client_key = session.client_public_key_hex().unwrap();
    let aad = response_aad("org/model", &context.nonce, context.timestamp, "resp-1", "choices.0.message.content");
    let sealed = encrypt_field(b"hello back", &client_key, &aad).unwrap();
    let response = format!(r#"{{"id":"resp-1","choices":[{{"index":0,"message":{{"content":"{sealed}"}}}}]}}"#);
    let receipt = sign_receipt(&gw, &context.request_body_hash, response.as_bytes(), &format!("as_{}", gw.session_id));
    let proof = json(&format!(
        r#"{{"response_body_base64":"{}","receipt":{}}}"#,
        base64::engine::general_purpose::STANDARD.encode(response.as_bytes()),
        receipt
    ));
    let out = session.decrypt_verified_completion(&completion_with(proof)).unwrap().unwrap();
    assert_eq!(out.content.as_deref(), Some("hello back"));
    assert!(out.reasoning_content.is_none());

    let wrong = sign_receipt(&gw, "sha256:other", response.as_bytes(), &gw.session_id);
    let proof = json(&format!(
        r#"{{"response_body_base64":"{}","receipt":{}}}"#,
        base64::engine::general_purpose::STANDARD.encode(response.as_bytes()),
        wrong
    ));
    assert_eq!(
        session.decrypt_verified_completion(&completion_with(proof)).unwrap_err().message(),
        "provider error: Phala receipt does not bind the exact local request"
    );
}

#[test]
fn completion_before_context_or_without_proof_is_refused() {
    let now = now_unix();
    let (_, model) = verified_phala(now);
    let mut session = PhalaCipher.new_session(&model, now).unwrap();
    assert_eq!(
        session.decrypt_verified_completion(&completion_with(json("{}"))).unwrap_err().message(),
        "provider error: Phala request context was not prepared"
    );
    session.prepare_request_context(&plain_request("org/model")).unwrap();
    assert_eq!(
        session.decrypt_verified_completion(&completion_with(json("[]"))).unwrap_err().message(),
        "provider error: Phala completion omitted its proof"
    );
    assert!(session.prepare_request_context(&plain_request("other")).is_err());
}

#[test]
fn receipt_from_an_unattested_key_is_refused() {
    let now = now_unix();
    let (gw, model) = verified_phala(now);
    let mut session = PhalaCipher.new_session(&model, now).unwrap();
    let context = session.prepare_request_context(&plain_request("org/model")).unwrap();
    let forged = Gateway { signing: SigningKey::from_bytes(&[5u8; 32]), session_id: gw.session_id.clone(), now };
    let response = br#"{"id":"r"}"#;
    let receipt = sign_receipt(&forged, &context.request_body_hash, response, &gw.session_id);
    let proof = json(&format!(
        r#"{{"response_body_base64":"{}","receipt":{}}}"#,
        base64::engine::general_purpose::STANDARD.encode(response),
        receipt
    ));
    assert_eq!(
        session.decrypt_verified_completion(&completion_with(proof)).unwrap_err().message(),
        "provider error: Phala receipt signature is invalid"
    );
}

#[test]
fn stream_is_verified_against_shown_deltas() {
    let now = now_unix();
    let (gw, model) = verified_phala(now);
    let mut session = PhalaCipher.new_session(&model, now).unwrap();
    let context = session.prepare_request_context(&plain_request("org/model")).unwrap();
    let client_key = session.client_public_key_hex().unwrap();
    let field = "choices.0.delta.content";
    let aad = response_aad("org/model", &context.nonce, context.timestamp, "resp-9", field);
    let sealed = encrypt_field(b"streamed", &client_key, &aad).unwrap();
    let shown = session.decrypt_stream_field(&sealed, Some("resp-9"), Some(field)).unwrap();
    assert_eq!(shown, b"streamed");
    let sse = format!(
        "data: {{\"id\":\"resp-9\",\"choices\":[{{\"index\":0,\"delta\":{{\"content\":\"{sealed}\"}}}}]}}\r\n\r\ndata: [DONE]\n\n"
    );
    let receipt = sign_receipt(&gw, &context.request_body_hash, sse.as_bytes(), &gw.session_id);
    let proof = json(&format!(
        r#"{{"response_body_base64":"{}","receipt":{}}}"#,
        base64::engine::general_purpose::STANDARD.encode(sse.as_bytes()),
        receipt
    ));
    session.verify_stream_completion(Some(&proof)).unwrap();
    assert_eq!(
        session.verify_stream_completion(None).unwrap_err().message(),
        "provider error: Phala stream omitted its final proof"
    );
    assert!(session.decrypt_stream_field(&sealed, None, Some(field)).is_err());
    assert!(session.decrypt_stream_field(&sealed, Some("resp-9"), Some("choices.1.delta.content")).is_err());
}

#[test]
fn expired_or_keyless_state_opens_no_session() {
    let now = now_unix();
    let (_, mut model) = verified_phala(now);
    model.expires_at_unix = Some(now);
    assert_eq!(
        PhalaCipher.new_session(&model, now).unwrap_err().message(),
        "provider error: verified Phala evidence has expired"
    );
    let (_, mut other) = verified_phala(now);
    other.model_public_key_hex = "ee".repeat(32);
    assert!(PhalaCipher.new_session(&other, now).is_err());
    let (_, mut none) = verified_phala(now);
    none.provider_state = None;
    assert!(PhalaCipher.new_session(&none, now).is_err());
}

#[test]
fn whole_message_encryption_is_refused() {
    let now = now_unix();
    let (_, model) = verified_phala(now);
    let mut session = PhalaCipher.new_session(&model, now).unwrap();
    assert!(session.encrypt(b"x").is_err());
    assert!(session.decrypt("00").is_err());
    assert!(session.supports_streaming());
}

#[test]
fn each_phala_challenge_carries_a_fresh_64_hex_nonce() {
    let first = PhalaChallenge::new();
    let second = PhalaChallenge::new();
    for challenge in [&first, &second] {
        let nonce = challenge.nonce();
        assert_eq!(nonce.len(), 64);
        assert!(nonce.chars().all(|c| c.is_ascii_digit() || ('a'..='f').contains(&c)));
    }
    assert_ne!(first.nonce(), second.nonce());
}

fn attestation_text(r: Result<axiom_proxy::dcap::IntelCollateral, axiom_proxy::error::CoreError>) -> String {
    match r {
        Err(axiom_proxy::error::CoreError::Attestation(m)) => m,
        other => panic!("expected an attestation error, got {:?}", other.map(|_| ())),
    }
}

fn collateral_bundle(root_ca_crl: &str, chain: &str) -> JsonValue {
    json(&format!(
        r#"{{"intel_collateral": {{
            "pck_crl_issuer_chain": "pck issuer",
            "root_ca_crl": "{root_ca_crl}",
            "pck_crl": "0x0c0d",
            "tcb_info_issuer_chain": "tcb issuer",
            "tcb_info": "{{}}",
            "tcb_info_signature": "ff",
            "qe_identity_issuer_chain": "qe issuer",
            "qe_identity": "[]",
            "qe_identity_signature": "00",
            "pck_certificate_chain": {chain}
        }}}}"#
    ))
}

#[test]
fn intel_collateral_reads_every_member_and_decodes_hex() {
    let c = intel_collateral(&collateral_bundle("0A0b", r#""leaf chain""#)).unwrap();
    assert_eq!(c.pck_crl_issuer_chain, "pck issuer");
    assert_eq!(c.root_ca_crl, vec![0x0a, 0x0b]);
    assert_eq!(c.pck_crl, vec![0x0c, 0x0d]);
    assert_eq!(c.tcb_info_issuer_chain, "tcb issuer");
    assert_eq!(c.tcb_info, "{}");
    assert_eq!(c.tcb_info_signature, vec![0xff]);
    assert_eq!(c.qe_identity_issuer_chain, "qe issuer");
    assert_eq!(c.qe_identity, "[]");
    assert_eq!(c.qe_identity_signature, vec![0x00]);
    assert_eq!(c.pck_certificate_chain.as_deref(), Some("leaf chain"));
    let without_chain = intel_collateral(&collateral_bundle("", "null")).unwrap();
    assert!(without_chain.root_ca_crl.is_empty());
    assert_eq!(without_chain.pck_certificate_chain, None);
}

#[test]
fn intel_collateral_errors_name_what_is_wrong() {
    assert_eq!(attestation_text(intel_collateral(&json("{}"))), "Phala Intel collateral is missing");
    assert_eq!(
        attestation_text(intel_collateral(&json(r#"{"intel_collateral": "x"}"#))),
        "Phala Intel collateral is invalid: not an object"
    );
    assert_eq!(
        attestation_text(intel_collateral(&json(r#"{"intel_collateral": {"pck_crl_issuer_chain": 1}}"#))),
        "Phala Intel collateral is invalid: missing or non-string field `pck_crl_issuer_chain`"
    );
    assert_eq!(
        attestation_text(intel_collateral(&collateral_bundle("00", "5"))),
        "Phala Intel collateral is invalid: field `pck_certificate_chain` is not a string"
    );
    assert_eq!(
        attestation_text(intel_collateral(&collateral_bundle("zz", "null"))),
        "Phala root_ca_crl must be hex: Invalid character 'z' at position 0"
    );
    assert_eq!(
        attestation_text(intel_collateral(&collateral_bundle("abc", "null"))),
        "Phala root_ca_crl must be hex: Odd number of digits"
    );
}

#[test]
fn gateway_quote_failing_dcap_is_reported_under_its_prefix() {
    let collateral = intel_collateral(&collateral_bundle("00", "null")).unwrap();
    let quote = vec![0u8; 16];
    let raw = match dcap_verify(&quote, &collateral, 1_700_000_000) {
        Err(e) => e,
        Ok(_) => panic!("a zero quote must not verify"),
    };
    assert!(!raw.is_empty());
    let reported = match verify_gateway_quote(&quote, &collateral, 1_700_000_000) {
        Err(e) => e,
        Ok(_) => panic!("a zero quote must not verify"),
    };
    assert_eq!(reported, format!("Phala Intel DCAP verification failed: {raw}"));
}

fn phala_key(verified: bool) -> ProviderE2eeKey {
    ProviderE2eeKey {
        verified,
        provider: "phala".into(),
        attestation_protocol: "phala-aci-tdx-v1".into(),
        e2ee_protocol: "phala-aci-v2".into(),
        encryption_version: 2,
        signing_algo: "x25519".into(),
        model_id: "m1".into(),
        model: "org/model".into(),
        base_url: "https://gw.example/".into(),
        model_public_key: "11".repeat(32),
    }
}

#[test]
fn phala_model_verification_refuses_before_dcap_on_identity_and_shape() {
    let challenge = PhalaChallenge::new();
    let evidence = ProviderAttestationEvidence {
        provider: "phala".into(),
        attestation_protocol: "phala-aci-tdx-v1".into(),
        evidence: json(r#"{"intel_collateral": {}}"#),
    };
    let unverified = challenge.verify(&phala_key(false), &evidence, "m1", "org/model", "https://gw.example", 1);
    match unverified {
        Err(axiom_proxy::error::CoreError::Attestation(m)) => assert_eq!(m, "Phala E2EE key identity mismatch"),
        _ => panic!("an unverified key must be refused"),
    }
    let no_report = verify_phala_model(
        &phala_key(true),
        &evidence,
        "m1",
        "org/model",
        "https://gw.example",
        challenge.nonce(),
        1,
    );
    match no_report {
        Err(axiom_proxy::error::CoreError::Attestation(m)) => assert_eq!(m, "Phala gateway report is missing"),
        _ => panic!("evidence without a gateway report must be refused"),
    }
}

#[test]
fn field_sealed_with_given_ephemeral_and_nonce_is_exact_and_opens() {
    let secret = [21u8; 32];
    let recipient = x25519_dalek::x25519(secret, x25519_dalek::X25519_BASEPOINT_BYTES);
    let ephemeral = [5u8; 32];
    let nonce = [6u8; 12];
    let aad = b"aad bytes";
    let wire = seal_field(&recipient, &ephemeral, &nonce, b"field", aad).unwrap();
    assert_eq!(wire.len(), 2 * (32 + 12 + 5 + 16));
    let ephemeral_public = x25519_dalek::x25519(ephemeral, x25519_dalek::X25519_BASEPOINT_BYTES);
    assert!(wire.starts_with(&format!("{}{}", hex::encode(ephemeral_public), hex::encode(nonce))));
    assert_eq!(seal_field(&recipient, &ephemeral, &nonce, b"field", aad).unwrap(), wire);
    assert_eq!(decrypt_field(&wire, &secret, aad).unwrap(), "field");
    assert!(decrypt_field(&wire, &secret, b"other aad").is_err());
    let drawn = encrypt_field(b"field", &hex::encode(recipient), aad).unwrap();
    assert_eq!(drawn.len(), wire.len());
    assert_eq!(decrypt_field(&drawn, &secret, aad).unwrap(), "field");
}
