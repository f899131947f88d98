use axiom_proxy::audit::RequestAudit;
use axiom_proxy::commands::{check_api_key, mask, no_key};
use axiom_proxy::e2ee::{encrypt_to_model, ClientKeypair};
use axiom_proxy::error::CoreError;
use axiom_proxy::events::RequestTerminalStatus;
use axiom_proxy::handlers::{admit_request, relay_error, require_key};
use axiom_proxy::openai::ChatRequest;
use axiom_proxy::keyring::{clear, load, store, KeyringFailure};
use axiom_proxy::near::NearCipher;
use axiom_proxy::provider::VerifiedModel;
use axiom_proxy::relay::{classify_event, RelayEvent, RelayEventKind, RelayUsage};
use axiom_proxy::sse::{StreamFrame, StreamTranslator};
use axiom_proxy::state::{AttestationCache, Counters};
use axiom_proxy::value::{normalize_report, parse_json, JsonValue};

fn hex32(s: &str) -> [u8; 32] {
    let b = hex::decode(s).unwrap();
    let mut out = [0u8; 32];
    out.copy_from_slice(&b);
    out
}

fn model(key_hex: String) -> VerifiedModel {
    VerifiedModel {
        model_public_key_hex: key_hex,
        tls_fingerprint: None,
        checks: vec![],
        provider_state: None,
        expires_at_unix: None,
    }
}

fn delta(content: Option<String>) -> RelayEvent {
    RelayEvent::Delta { content, reasoning: None, refusal: None, tool_calls: vec![], sequence: 0 }
}

fn chunk_text(frames: &[StreamFrame]) -> String {
    let mut out = String::new();
    for frame in frames {
        if let StreamFrame::Chunk(chunk) = frame {
            for choice in &chunk.choices {
                if let Some(c) = &choice.delta.content {
                    out.push_str(c);
                }
            }
        }
    }
    out
}

#[test]
fn stream_translates_decrypted_deltas_and_records_once() {
    let probe = ClientKeypair::generate();
    let mut session = NearCipher.new_session(&model(probe.public_hex.clone())).unwrap();
    let client = session.client_public_key_hex().unwrap();
    let wire = encrypt_to_model(&hex32(&client), b"hello").unwrap();
    let mut audit = RequestAudit::start("req-1".into(), "m".into(), true, 10);
    let mut translator = StreamTranslator::new("chatcmpl-1".into(), "m".into(), 1, false);
    let step = translator.on_event(&mut audit, &mut session, Ok(delta(Some(wire))), 11, 1);
    assert_eq!(chunk_text(&step.frames), "hello");
    assert!(step.record.is_none());
    let done = translator.on_event(
        &mut audit,
        &mut session,
        Ok(RelayEvent::Completed {
            usage: RelayUsage { prompt_tokens: Some(3), completion_tokens: Some(4), total_tokens: Some(7) },
            finish_reason: Some("stop".into()),
        }),
        12,
        2,
    );
    assert!(matches!(done.frames.last(), Some(StreamFrame::Done)));
    let record = done.record.unwrap();
    assert_eq!(record.status, RequestTerminalStatus::Completed);
    assert_eq!(record.prompt_tokens, 3);
    assert_eq!(record.completion_tokens, 4);
    let after = translator.on_event(&mut audit, &mut session, Ok(delta(None)), 13, 3);
    assert!(after.frames.is_empty());
    assert!(after.record.is_none());
    assert!(translator.on_end(&mut audit, 14, 4).record.is_none());
}

#[test]
fn tampered_stream_delta_fails_the_stream() {
    let probe = ClientKeypair::generate();
    let mut session = NearCipher.new_session(&model(probe.public_hex.clone())).unwrap();
    let mut audit = RequestAudit::start("req-2".into(), "m".into(), true, 10);
    let mut translator = StreamTranslator::new("chatcmpl-2".into(), "m".into(), 1, false);
    let step = translator.on_event(&mut audit, &mut session, Ok(delta(Some("00".repeat(80)))), 11, 1);
    assert!(step.frames.iter().any(|f| matches!(f, StreamFrame::Error(_))));
    assert_eq!(step.record.unwrap().status, RequestTerminalStatus::Failed);
}

#[test]
fn stream_ending_early_is_recorded_as_failed_once() {
    let probe = ClientKeypair::generate();
    let mut session = NearCipher.new_session(&model(probe.public_hex.clone())).unwrap();
    let mut audit = RequestAudit::start("req-3".into(), "m".into(), true, 10);
    let mut translator = StreamTranslator::new("chatcmpl-3".into(), "m".into(), 1, false);
    let end = translator.on_end(&mut audit, 11, 1);
    assert_eq!(end.record.unwrap().status, RequestTerminalStatus::Failed);
    assert!(translator.on_end(&mut audit, 12, 2).record.is_none());
}

#[test]
fn audit_records_exactly_one_terminal_state() {
    let mut audit = RequestAudit::start("req".into(), "m".into(), false, 5);
    let first = audit.fail("upstream_error".into(), 6, 1);
    assert_eq!(first.unwrap().status, RequestTerminalStatus::Failed);
    assert!(audit.complete(1, 2, "stop".into(), 7, 2).is_none());
    assert!(audit.cancel("client_cancelled".into(), 8, 3).is_none());
}

#[test]
fn counters_balance_active_requests() {
    let mut counters = Counters::default();
    counters.record_start();
    counters.record_start();
    counters.record_finish(10, 20);
    assert_eq!(counters.active_requests, 1);
    assert_eq!(counters.total_requests, 2);
    assert_eq!(counters.prompt_tokens, 10);
    assert_eq!(counters.completion_tokens, 20);
}

#[test]
fn attestation_cache_serves_fresh_entries_and_forgets_invalidated_ones() {
    let mut cache = AttestationCache::new();
    assert!(cache.lookup("m", 0, 1000, 0).is_none());
    cache.insert("m".into(), model("aa".repeat(32)), 100, 5000);
    let hit = cache.lookup("m", 600, 1000, 0).unwrap();
    assert_eq!(hit.age_ms, 500);
    assert_eq!(hit.verified.model_public_key_hex, "aa".repeat(32));
    assert!(cache.lookup("m", 1100, 1000, 0).is_none());
    assert_eq!(cache.fresh(600, 1000, 0).len(), 1);
    cache.insert("m".into(), model("bb".repeat(32)), 200, 6000);
    assert_eq!(cache.lookup("m", 300, 1000, 0).unwrap().verified.model_public_key_hex, "bb".repeat(32));
    cache.invalidate("m");
    assert!(cache.lookup("m", 300, 1000, 0).is_none());
}

#[test]
fn cached_attestation_is_never_served_past_its_provider_expiry() {
    let mut cache = AttestationCache::new();
    let mut expiring = model("cc".repeat(32));
    expiring.expires_at_unix = Some(1_700_000_100);
    cache.insert("p".into(), expiring, 100, 5000);
    assert!(cache.lookup("p", 200, 900_000, 1_700_000_099).is_some());
    assert!(cache.lookup("p", 200, 900_000, 1_700_000_100).is_none());
    assert!(cache.lookup("p", 200, 900_000, 1_800_000_000).is_none());
    assert_eq!(cache.fresh(200, 900_000, 1_700_000_099).len(), 1);
    assert!(cache.fresh(200, 900_000, 1_700_000_100).is_empty());
}

#[test]
fn recorded_verification_is_returned_fresh_and_then_served_with_its_age() {
    let mut cache = AttestationCache::new();
    cache.insert("other".into(), model("dd".repeat(32)), 10, 1000);
    let receipt = cache.record("m".into(), model("ee".repeat(32)), 400, 7000);
    assert_eq!(receipt.age_ms, 0);
    assert_eq!(receipt.verified_at_unix_ms, 7000);
    assert_eq!(receipt.verified.model_public_key_hex, "ee".repeat(32));
    let hit = cache.lookup("m", 650, 1000, 0).unwrap();
    assert_eq!(hit.age_ms, 250);
    assert_eq!(hit.verified_at_unix_ms, 7000);
    assert_eq!(hit.verified.model_public_key_hex, "ee".repeat(32));
    assert!(cache.lookup("m", 1400, 1000, 0).is_none());
    assert_eq!(cache.lookup("other", 20, 1000, 0).unwrap().verified.model_public_key_hex, "dd".repeat(32));
}

#[test]
fn missing_api_key_is_401() {
    let err = require_key(None).unwrap_err();
    assert_eq!(err.status, 401);
    assert_eq!(require_key(Some("axm_1".into())).unwrap(), "axm_1");
    // The key is checked before the request: a request with no messages still gets 401.
    let empty = ChatRequest {
        model: "gemma-4-31b".into(),
        messages: vec![],
        stream: false,
        stream_options: None,
        max_tokens: None,
        sampling: None,
        response_format: None,
        reasoning_effort: None,
        tools: None,
        tool_choice: None,
        parallel_tool_calls: None,
        functions: None,
        function_call: None,
    };
    let err = admit_request(None, &empty).unwrap_err();
    assert_eq!(err.status, 401);
    assert_eq!(err.kind, "authentication_error");
    let err = admit_request(Some("axm_1".into()), &empty).unwrap_err();
    assert_eq!(err.status, 400);
    assert_eq!(err.kind, "invalid_request_error");
}

#[test]
fn insufficient_credit_maps_to_402() {
    let credit = relay_error(CoreError::Relay("402 Payment Required: balance".into()));
    assert_eq!(credit.status, 402);
    assert_eq!(credit.kind(), "insufficient_credit");
    let other = relay_error(CoreError::Relay("500 Internal".into()));
    assert_eq!(other.status, 502);
    assert_eq!(other.message, "relay error: 500 Internal");
}

#[test]
fn api_key_is_masked_to_its_last_four_characters() {
    let status = mask("axm_secretvalue1234");
    assert!(status.present);
    assert_eq!(status.masked.as_deref(), Some("axm_\u{2026}1234"));
    assert!(!no_key().present);
    assert!(check_api_key("   ").is_err());
}

#[test]
fn relay_event_names_are_classified_and_unknown_ones_fail() {
    assert_eq!(classify_event("message.encrypted_delta").unwrap(), RelayEventKind::Delta);
    assert_eq!(classify_event("run.created").unwrap(), RelayEventKind::Ignored);
    assert_eq!(classify_event("run.failed").unwrap(), RelayEventKind::Failed);
    assert_eq!(
        classify_event("surprise").unwrap_err().message(),
        "relay error: unexpected relay event: surprise"
    );
}

#[test]
fn keyring_answers_map_to_key_store_results() {
    assert_eq!(load(Ok("axm_k".into())).unwrap(), Some("axm_k".to_string()));
    assert_eq!(load(Err(KeyringFailure::NoEntry("none".into()))).unwrap(), None);
    assert_eq!(
        load(Err(KeyringFailure::Other("locked".into()))).unwrap_err(),
        "keyring read failed: locked"
    );
    assert_eq!(
        store(Err(KeyringFailure::Unavailable("no service".into()))).unwrap_err(),
        "keyring unavailable: no service"
    );
    assert!(clear(Err(KeyringFailure::NoEntry("none".into()))).is_ok());
    assert_eq!(clear(Err(KeyringFailure::Other("x".into()))).unwrap_err(), "keyring delete failed: x");
}

fn json(text: &str) -> JsonValue {
    parse_json(text.as_bytes()).unwrap()
}

#[test]
fn wrapped_reports_are_unwrapped_and_completed() {
    let wrapped = json(r#"{"nonce":"n1","model_attestations":[{"signing_public_key":"k","nonce":"inner"}],"model_name":"m"}"#);
    let report = normalize_report(wrapped);
    assert_eq!(report.get_str("nonce").unwrap(), "inner");
    assert_eq!(report.get_str("model_name").unwrap(), "m");
    assert!(report.get("model_attestations").is_none());
    let plain = normalize_report(json(r#"{"nonce":"n"}"#));
    assert_eq!(plain.get_str("nonce").unwrap(), "n");
}
