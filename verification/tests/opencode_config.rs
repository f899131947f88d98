use axiom_proxy::opencode::{
    backup_file_name, choose_config_file, config_dir_from_paths, configure_decision, merge_provider,
    validate_base_url,
    ConfigFileChoice,
};

#[test]
fn adds_provider_without_changing_other_values_or_comments() {
    let source = r#"{
  // keep this comment
  "theme": "system",
  "provider": {
    "other": { "name": "Other" },
  },
}
"#;
    let output = merge_provider(source, "http://127.0.0.1:8484/v1").unwrap();
    assert!(output.contains("// keep this comment"));
    assert!(output.contains(r#""theme": "system""#));
    assert!(output.contains(r#""other": { "name": "Other" }"#));
    assert!(output.contains(r#""npm": "@ai-sdk/openai-compatible""#));
    assert!(!output.contains("axm_"));
}

#[test]
fn replacing_provider_is_idempotent() {
    let legacy = r#"{
  "provider": {
    "axiom": {
      "name": "AxiomIO",
      "models": {
        "glm-5": { "name": "GLM-5" },
        "glm-5-1": { "name": "GLM-5.1" }
      }
    }
  }
}
"#;
    let once = merge_provider(legacy, "http://127.0.0.1:8484/v1").unwrap();
    let twice = merge_provider(&once, "http://127.0.0.1:8484/v1").unwrap();
    assert_eq!(once, twice);
    assert_eq!(twice.matches(r#""axiom""#).count(), 1);
    assert!(twice.contains(r#""reasoning": true"#));
    assert!(twice.contains(r#""tool_call": true"#));
    assert!(twice.contains(r#""max""#));
    assert!(twice.contains(r#""disabled": true"#));
    assert!(!twice.contains(r#""glm-5-1""#));
    assert!(!twice.contains(r#""glm-5""#));
    for effort in ["low", "medium", "high", "xhigh"] {
        assert!(twice.contains(&format!(r#""reasoningEffort": "{effort}""#)));
    }
    assert_eq!(twice.matches(r#""reasoningEffort""#).count(), 4);
}

#[test]
fn rejects_malformed_config_and_remote_url() {
    assert!(merge_provider("{ nope", "http://127.0.0.1:8484/v1").is_err());
    assert!(validate_base_url("https://api.axiom.stream/v1").is_err());
    assert!(validate_base_url("http://127.0.0.1:8484").is_err());
}

#[test]
fn merged_output_ends_with_a_newline_and_error_names_the_format() {
    let out = merge_provider("{}", "http://127.0.0.1:8484/v1").unwrap();
    assert!(out.ends_with('\n'));
    let err = merge_provider("{ nope", "http://127.0.0.1:8484/v1").unwrap_err();
    assert!(err.starts_with("invalid OpenCode JSON/JSONC: "));
}

#[test]
fn local_base_url_is_accepted() {
    assert!(validate_base_url("http://127.0.0.1:8484/v1").is_ok());
}

#[test]
fn config_directory_is_read_from_the_paths_report() {
    let report = "home       /home/u\nconfig     /home/u/.config/opencode  \r\nstate /home/u/.local/state\n";
    assert_eq!(
        config_dir_from_paths(report).as_deref(),
        Some("/home/u/.config/opencode")
    );
    assert_eq!(config_dir_from_paths("data /x\nconfiguration /y\n"), None);
    assert_eq!(config_dir_from_paths(""), None);
    assert_eq!(
        config_dir_from_paths("config\t/first\nconfig /second").as_deref(),
        Some("/first")
    );
}

#[test]
fn chooses_existing_format_and_rejects_ambiguous_files() {
    // An empty directory: the default `opencode.json`.
    assert_eq!(choose_config_file(false, false), ConfigFileChoice::Json);
    // Only `opencode.jsonc` exists.
    assert_eq!(choose_config_file(false, true), ConfigFileChoice::Jsonc);
    // Both exist: the user must choose.
    assert_eq!(choose_config_file(true, true), ConfigFileChoice::Ambiguous);
}

#[test]
fn config_file_choice_and_backup_names() {
    assert_eq!(choose_config_file(true, false), ConfigFileChoice::Json);
    assert_eq!(backup_file_name("opencode.json", 1700000000123, 0), "opencode.json.bak-1700000000123");
    assert_eq!(backup_file_name("opencode.json", 17, 2), "opencode.json.bak-17-2");
}

#[test]
fn configure_writes_backup_and_skips_unchanged_rewrite() {
    let original = "{\n  // original\n}\n";
    let first = merge_provider(original, "http://127.0.0.1:8484/v1").unwrap();
    let decision = configure_decision(original, &first, false, true);
    assert!(decision.changed);
    assert!(decision.write);
    assert!(decision.backup);
    assert!(first.contains("// original"));

    let second = merge_provider(&first, "http://127.0.0.1:8484/v1").unwrap();
    let again = configure_decision(&first, &second, false, true);
    assert!(!again.changed);
    assert!(!again.write);
    assert!(!again.backup);
}

#[test]
fn dry_run_does_not_create_a_file() {
    let original = "{}\n";
    let rendered = merge_provider(original, "http://127.0.0.1:8484/v1").unwrap();
    let decision = configure_decision(original, &rendered, true, false);
    assert!(decision.changed);
    assert!(!decision.write);
    assert!(!decision.backup);
    assert!(rendered.contains("\"baseURL\": \"http://127.0.0.1:8484/v1\""));
}
