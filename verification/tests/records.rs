use axiom_proxy::config::{config_path_in, history_path_in, Config};
use axiom_proxy::error::CoreError;
use axiom_proxy::events::{
    E2eeAuditReceipt, RequestLogEntry, RequestTerminalStatus, TeeAuditReceipt,
};
use axiom_proxy::history::{clone_entry, RequestHistory, REQUEST_HISTORY_CAP};
use axiom_proxy::near::is_near_gateway;
use axiom_proxy::provider::VerificationCheck;
use axiom_proxy::update::{info_from_tag, update_command};

fn completed_receipt() -> RequestLogEntry {
    RequestLogEntry {
        id: "request-1".into(),
        model: "glm-5-2".into(),
        provider: "near".into(),
        stream: true,
        status: RequestTerminalStatus::Completed,
        started_at_unix_ms: 1,
        completed_at_unix_ms: 2,
        prompt_tokens: 3,
        completion_tokens: 4,
        duration_ms: 1,
        finish_reason: Some("stop".into()),
        error_kind: None,
        e2ee: E2eeAuditReceipt {
            protocol: Some("near-v2".into()),
            encryption_version: Some(2),
            request_encrypted: true,
            backend_key_accepted: true,
            response_decrypted: true,
            ephemeral_client_key: true,
        },
        tee: TeeAuditReceipt { verified: true, ..Default::default() },
    }
}

fn entry(index: usize) -> RequestLogEntry {
    RequestLogEntry {
        id: format!("request-{index}"),
        model: "glm-5-2".into(),
        provider: "near".into(),
        stream: index % 2 == 0,
        status: RequestTerminalStatus::Completed,
        started_at_unix_ms: index as u64,
        completed_at_unix_ms: index as u64 + 1,
        prompt_tokens: 3,
        completion_tokens: 4,
        duration_ms: 1,
        finish_reason: Some("stop".into()),
        error_kind: None,
        e2ee: E2eeAuditReceipt {
            protocol: Some("near-v2".into()),
            encryption_version: Some(2),
            request_encrypted: true,
            backend_key_accepted: true,
            response_decrypted: true,
            ephemeral_client_key: true,
        },
        tee: TeeAuditReceipt {
            verified: true,
            verified_at_unix_ms: Some(1),
            age_ms: Some(0),
            model_key_sha256: Some("ab".repeat(32)),
            tls_spki_sha256: Some("cd".repeat(32)),
            checks: vec![VerificationCheck::new("intel_tdx", "Intel TDX", "UpToDate".to_string(), true)],
        },
    }
}

#[test]
fn production_backend_defaults_to_live_api_domain() {
    assert_eq!(Config::default().backend_url, "https://api.axiom.stream");
}

#[test]
fn config_files_are_placed_in_the_reported_directories() {
    let dir = std::path::PathBuf::from("/home/u/.config/axiom-proxy");
    assert_eq!(config_path_in(Some(dir.clone())).unwrap(), dir.join("config.json"));
    assert_eq!(history_path_in(Some(dir.clone())).unwrap(), dir.join("request-history.json"));
    match config_path_in(None) {
        Err(CoreError::Config(m)) => assert_eq!(m, "no home directory for config path"),
        other => panic!("unexpected {other:?}"),
    }
    match history_path_in(None) {
        Err(CoreError::Config(m)) => assert_eq!(m, "no home directory for history path"),
        other => panic!("unexpected {other:?}"),
    }
}

#[test]
fn gateway_detection() {
    assert!(is_near_gateway("https://cloud-api.near.ai/v1"));
    assert!(!is_near_gateway("https://gemma-4-31b.completions.near.ai/v1"));
}

#[test]
fn verified_completion_requires_exact_near_v2_evidence() {
    let entry = completed_receipt();
    assert!(entry.verified_completed());

    let mut wrong_protocol = clone_entry(&entry);
    wrong_protocol.e2ee.protocol = Some("near-v3".into());
    assert!(!wrong_protocol.verified_completed());

    let mut wrong_version = clone_entry(&entry);
    wrong_version.e2ee.encryption_version = Some(1);
    assert!(!wrong_version.verified_completed());

    let mut failed = entry;
    failed.status = RequestTerminalStatus::Failed;
    assert!(!failed.verified_completed());
}

#[test]
fn memory_only_history_never_writes() {
    let mut history = RequestHistory::memory_only();
    assert!(history.push(entry(1)).is_none());
    assert_eq!(history.recent(1)[0].id, "request-1");
}

#[test]
fn persists_reloads_and_caps_to_newest_hundred() {
    let path = std::path::PathBuf::from("history.json");
    let mut history = RequestHistory::load(path.clone(), None);
    let mut last_document = None;
    for index in 0..105 {
        last_document = history.push(entry(index));
        assert!(last_document.is_some());
    }
    assert_eq!(history.recent(200).len(), REQUEST_HISTORY_CAP);
    assert_eq!(history.recent(1)[0].id, "request-104");
    assert_eq!(history.recent(100).last().unwrap().id, "request-5");

    let reloaded = RequestHistory::load(path, last_document);
    let a: Vec<String> = reloaded.recent(200).into_iter().map(|e| e.id).collect();
    let b: Vec<String> = history.recent(200).into_iter().map(|e| e.id).collect();
    assert_eq!(a, b);
}

#[test]
fn corrupt_file_starts_empty_without_overwriting_until_a_record_arrives() {
    // An unreadable file reaches the history as no document; loading writes nothing, and only a
    // new record produces a document to store.
    let mut history = RequestHistory::load(std::path::PathBuf::from("history.json"), None);
    assert!(history.recent(100).is_empty());
    let document = history.push(entry(1)).expect("a stored history hands back its document");
    assert_eq!(document.entries.len(), 1);
    assert_eq!(document.entries[0].id, "request-1");
}

#[test]
fn persisted_document_contains_metadata_but_no_message_fields_or_plaintext() {
    let mut history = RequestHistory::load(std::path::PathBuf::from("history.json"), None);
    let document = history.push(entry(1)).unwrap();
    let text = format!("{document:?}");
    assert!(text.contains("near-v2"));
    assert!(text.contains("model_key_sha256"));
    for forbidden in [
        "plaintext-sentinel",
        "encrypted_messages",
        "ciphertext",
        "client_public_key",
        "model_public_key_hex",
        "api_key",
        "tool_arguments",
    ] {
        assert!(!text.contains(forbidden), "history leaked forbidden field {forbidden}");
    }
}

#[test]
fn newest_entry_comes_first_and_limit_is_respected() {
    let mut history = RequestHistory::memory_only();
    for index in 0..3 {
        history.push(entry(index));
    }
    let ids: Vec<String> = history.recent(2).into_iter().map(|e| e.id).collect();
    assert_eq!(ids, vec!["request-2".to_string(), "request-1".to_string()]);
    assert!(history.recent(0).is_empty());
}

#[test]
fn newer_stable_version_is_available() {
    let info = info_from_tag("0.1.0", "v0.2.0").unwrap();
    assert!(info.available);
    assert_eq!(info.current_version, "0.1.0");
    assert_eq!(info.latest_version, "0.2.0");
    assert!(info.command.contains("axiomup."));
}

#[test]
fn equal_and_older_versions_are_not_available() {
    assert!(!info_from_tag("0.2.0", "v0.2.0").unwrap().available);
    assert!(!info_from_tag("0.3.0", "v0.2.0").unwrap().available);
}

#[test]
fn semver_prerelease_ordering_is_preserved() {
    assert!(info_from_tag("1.0.0-beta.1", "v1.0.0").unwrap().available);
}

#[test]
fn malformed_release_tag_is_rejected() {
    assert!(info_from_tag("0.1.0", "latest").is_err());
}

#[test]
fn command_matches_the_current_platform() {
    if std::path::MAIN_SEPARATOR == '\\' {
        assert_eq!(update_command(), "irm https://axiom.stream/axiomup.ps1 | iex");
    } else {
        assert_eq!(update_command(), "curl -fsSL https://axiom.stream/axiomup.sh | bash");
    }
}
