use axiom_proxy::attestation::near_checks;
use axiom_proxy::audit::RequestAudit;
use axiom_proxy::e2ee::{encrypt_to_model, ClientKeypair};
use axiom_proxy::events::RequestTerminalStatus;
use axiom_proxy::handlers::{
    check_reasoning_effort, check_relay_request_size, complete_response, engine_and_effort, model_list,
    prepare_relay_request, security_receipt, validate_request,
};
use axiom_proxy::near::{NearCipher, NearSession};
use axiom_proxy::openai::{
    ChatMessage, ChatRequest, FunctionCall, FunctionDefinition, MessageContent, MessageRole,
    ReasoningEffort, ToolCall, ToolChoice, ToolDefinition, MAX_RELAY_REQUEST_BYTES,
};
use axiom_proxy::provider::{ProviderRegistry, VerifiedModel};
use axiom_proxy::relay::{
    RelayChatRequest, RelayCompletion, RelayEncryptedFunctionCall, RelayEncryptedToolCall,
    RelayEncryptedToolChoice, RelayEvent, RelayModel, RelayUsage,
};
use axiom_proxy::sse::{StreamFrame, StreamTranslator};

const TOOL_NAME: &str = "read_secret";
const TOOL_DESCRIPTION: &str = "Read the sentinel file from the workspace";
const USER_PROMPT: &str = "Use read_secret on target.txt";
const TOOL_ARGUMENTS: &str = "{\"filePath\":\"target.txt\"}";
const TOOL_ARGUMENTS_2: &str = "{\"filePath\":\"other.txt\"}";
const TOOL_RESULT: &str = "TOKEN=before\n";
const TOOL_RESULT_2: &str = "TOKEN=other\n";
const MESSAGE_NAME: &str = "operator_secret";
const REFUSAL_HISTORY: &str = "encrypted refusal history";

fn hex32(value: &str) -> [u8; 32] {
    let bytes = hex::decode(value).unwrap();
    let mut output = [0u8; 32];
    output.copy_from_slice(&bytes);
    output
}

fn relay_model(id: &str, model: &str, efforts: &[&str]) -> RelayModel {
    RelayModel {
        id: id.into(),
        label: id.into(),
        short_label: id.into(),
        model: model.into(),
        base_url: format!("https://{id}.completions.near.ai/v1"),
        provider: "near".into(),
        supported_reasoning_efforts: efforts.iter().map(|e| e.to_string()).collect(),
        e2ee_protocol: "near-v2".into(),
        e2ee_encryption_version: 2,
        attestation_protocol: "near-tdx-nvidia-v1".into(),
    }
}

fn test_model() -> RelayModel {
    relay_model("gemma-4-31b", "google/gemma-4-31B-it", &[])
}

fn reasoning_model() -> RelayModel {
    relay_model("glm-5-2", "z-ai/glm-5.2", &["low", "medium", "high", "xhigh"])
}

fn verified(model_key: &ClientKeypair) -> VerifiedModel {
    VerifiedModel {
        model_public_key_hex: model_key.public_hex.clone(),
        tls_fingerprint: Some("56".repeat(32)),
        checks: near_checks("UpToDate", "verified"),
        provider_state: None,
        expires_at_unix: None,
    }
}

fn message(role: MessageRole, content: Option<&str>) -> ChatMessage {
    ChatMessage {
        role,
        content: content.map(|c| MessageContent::Text(c.into())),
        reasoning_content: None,
        name: None,
        refusal: None,
        tool_calls: None,
        tool_call_id: None,
    }
}

fn request(model: &str, messages: Vec<ChatMessage>) -> ChatRequest {
    ChatRequest {
        model: model.into(),
        messages,
        stream: false,
        stream_options: None,
        max_tokens: None,
        sampling: None,
        response_format: None,
        reasoning_effort: None,
        tools: None,
        tool_choice: None,
        parallel_tool_calls: None,
        functions: None,
        function_call: None,
    }
}

fn tool_definition() -> ToolDefinition {
    ToolDefinition {
        kind: "function".into(),
        function: FunctionDefinition {
            name: TOOL_NAME.into(),
            description: Some(TOOL_DESCRIPTION.into()),
            parameters: r#"{"type":"object","properties":{"sentinelProperty":{"type":"string"}},"required":["sentinelProperty"]}"#.into(),
            strict: None,
        },
    }
}

fn call(id: &str, arguments: &str) -> ToolCall {
    ToolCall {
        id: id.into(),
        kind: "function".into(),
        function: FunctionCall { name: TOOL_NAME.into(), arguments: arguments.into() },
    }
}

fn followup_tool_request() -> ChatRequest {
    let mut user = message(MessageRole::User, Some(USER_PROMPT));
    user.name = Some(MESSAGE_NAME.into());
    let mut assistant = message(MessageRole::Assistant, None);
    assistant.refusal = Some(REFUSAL_HISTORY.into());
    assistant.tool_calls =
        Some(vec![call("call_secret_1", TOOL_ARGUMENTS), call("call_secret_2", TOOL_ARGUMENTS_2)]);
    let mut tool_1 = message(MessageRole::Tool, Some(TOOL_RESULT));
    tool_1.tool_call_id = Some("call_secret_1".into());
    let mut tool_2 = message(MessageRole::Tool, Some(TOOL_RESULT_2));
    tool_2.tool_call_id = Some("call_secret_2".into());
    let mut req = request("gemma-4-31b", vec![user, assistant, tool_1, tool_2]);
    req.tools = Some(vec![tool_definition()]);
    req.tool_choice = Some(ToolChoice::Mode("auto".into()));
    req.parallel_tool_calls = Some(true);
    req
}

/// Assembles the relay request as the handler does, for a model whose key `model_key` holds.
fn assemble(req: &ChatRequest, model: &RelayModel, model_key: &ClientKeypair) -> (RelayChatRequest, NearSession) {
    let registry = ProviderRegistry::builtin();
    let engine = registry.for_model(model).unwrap();
    let effort = check_reasoning_effort(req, model).unwrap();
    let verified = verified(model_key);
    let mut session = NearCipher.new_session(&verified).unwrap();
    let relay = prepare_relay_request(req, model, engine, &verified, &mut session, req.sampling.clone(), effort)
        .unwrap();
    (relay, session)
}

fn open(model_key: &ClientKeypair, wire: &str) -> String {
    String::from_utf8(model_key.decrypt(wire).unwrap()).unwrap()
}

fn to_client(relay: &RelayChatRequest, text: &str) -> String {
    encrypt_to_model(&hex32(relay.client_public_key_hex.as_deref().unwrap()), text.as_bytes()).unwrap()
}

#[test]
fn non_stream_decrypts_and_returns_openai_shape() {
    let model_key = ClientKeypair::generate();
    let req = request("gemma-4-31b", vec![message(MessageRole::User, Some("hi"))]);
    assert!(validate_request(&req).is_ok());
    let model = test_model();
    let (relay, mut session) = assemble(&req, &model, &model_key);
    assert_eq!(relay.e2ee_protocol.as_deref(), Some("near-v2"));
    assert_eq!(relay.encryption_version, 2);
    assert_eq!(relay.model_public_key_hex.as_deref(), Some(model_key.public_hex.as_str()));
    assert!(!relay.encrypt_all_fields);
    assert!(relay.reasoning_effort.is_none());
    assert_eq!(open(&model_key, relay.encrypted_messages[0].encrypted_content.as_deref().unwrap()), "hi");

    let verified = verified(&model_key);
    let receipt = security_receipt(&model, &relay, &verified, 1_000, 5);
    let mut audit = RequestAudit::start("chatcmpl-1".into(), req.model.clone(), false, 900);
    audit.set_security(receipt);
    audit.backend_key_accepted();
    let completion = RelayCompletion {
        id: "relay-text".into(),
        model: Some("google/gemma-4-31B-it".into()),
        encrypted_content: Some(to_client(&relay, "hello from fake relay")),
        encrypted_reasoning_content: None,
        encrypted_refusal: None,
        encrypted_tool_calls: vec![],
        finish_reason: Some("stop".into()),
        usage: RelayUsage { prompt_tokens: Some(10), completion_tokens: Some(4), total_tokens: Some(14) },
        proof: None,
    };
    let (result, record) =
        complete_response(&completion, &mut session, &mut audit, "chatcmpl-1".into(), 7, relay.model_id.clone(), 1_010, 10);
    let out = result.unwrap();
    assert_eq!(out.object, "chat.completion");
    assert_eq!(out.choices[0].message.content.as_deref(), Some("hello from fake relay"));
    assert_eq!(out.choices[0].finish_reason, "stop");
    assert_eq!(out.usage.as_ref().unwrap().total_tokens, 14);

    let entry = record.unwrap();
    assert_eq!(entry.status, RequestTerminalStatus::Completed);
    assert_eq!(entry.model, "gemma-4-31b");
    assert_eq!(entry.provider, "near");
    assert!(!entry.stream);
    assert_eq!(entry.e2ee.protocol.as_deref(), Some("near-v2"));
    assert_eq!(entry.e2ee.encryption_version, Some(2));
    assert!(entry.e2ee.request_encrypted);
    assert!(entry.e2ee.ephemeral_client_key);
    assert!(entry.e2ee.backend_key_accepted);
    assert!(entry.e2ee.response_decrypted);
    assert!(entry.tee.verified);
    assert_eq!(entry.tee.model_key_sha256.as_deref().unwrap().len(), 64);
    assert_eq!(entry.tee.tls_spki_sha256.as_deref().unwrap().len(), 64);
    assert!(entry.tee.checks.iter().all(|check| check.ok));
    assert!(entry.verified_completed());
    assert_eq!(entry.prompt_tokens, 10);
    assert_eq!(entry.completion_tokens, 4);
    assert_eq!(entry.finish_reason.as_deref(), Some("stop"));
}

#[test]
fn non_stream_tool_loop_encrypts_history_and_reconstructs_response() {
    let model_key = ClientKeypair::generate();
    let req = followup_tool_request();
    assert!(validate_request(&req).is_ok());
    let (relay, mut session) = assemble(&req, &test_model(), &model_key);
    assert!(relay.encrypt_all_fields);
    assert_eq!(relay.parallel_tool_calls, Some(true));
    assert!(matches!(relay.encrypted_tool_choice, Some(RelayEncryptedToolChoice::Mode(ref m)) if m == "auto"));
    let tools = relay.encrypted_tools.as_ref().unwrap();
    assert_eq!(tools.len(), 1);
    assert_eq!(open(&model_key, &tools[0].function.encrypted_name), TOOL_NAME);
    assert_eq!(open(&model_key, tools[0].function.encrypted_description.as_deref().unwrap()), TOOL_DESCRIPTION);
    assert!(open(&model_key, &tools[0].function.encrypted_parameters).contains("sentinelProperty"));

    let user = &relay.encrypted_messages[0];
    assert_eq!(user.role, "user");
    assert_eq!(open(&model_key, user.encrypted_content.as_deref().unwrap()), USER_PROMPT);
    assert_eq!(open(&model_key, user.encrypted_name.as_deref().unwrap()), MESSAGE_NAME);
    let assistant = &relay.encrypted_messages[1];
    assert_eq!(open(&model_key, assistant.encrypted_refusal.as_deref().unwrap()), REFUSAL_HISTORY);
    let calls = assistant.encrypted_tool_calls.as_ref().unwrap();
    assert_eq!(calls.len(), 2);
    assert_eq!(calls[1].id, "call_secret_2");
    assert_eq!(open(&model_key, &calls[0].function.encrypted_arguments), TOOL_ARGUMENTS);
    assert_eq!(open(&model_key, &calls[1].function.encrypted_arguments), TOOL_ARGUMENTS_2);
    assert_eq!(relay.encrypted_messages[2].tool_call_id.as_deref(), Some("call_secret_1"));
    assert_eq!(open(&model_key, relay.encrypted_messages[2].encrypted_content.as_deref().unwrap()), TOOL_RESULT);
    assert_eq!(open(&model_key, relay.encrypted_messages[3].encrypted_content.as_deref().unwrap()), TOOL_RESULT_2);

    let mut audit = RequestAudit::start("chatcmpl-2".into(), req.model.clone(), false, 900);
    let completion = RelayCompletion {
        id: "relay-tool-1".into(),
        model: None,
        encrypted_content: None,
        encrypted_reasoning_content: None,
        encrypted_refusal: None,
        encrypted_tool_calls: vec![
            RelayEncryptedToolCall {
                id: "call_secret_1".into(),
                kind: "function".into(),
                function: RelayEncryptedFunctionCall {
                    encrypted_name: to_client(&relay, TOOL_NAME),
                    encrypted_arguments: to_client(&relay, TOOL_ARGUMENTS),
                },
            },
            RelayEncryptedToolCall {
                id: "call_secret_2".into(),
                kind: "function".into(),
                function: RelayEncryptedFunctionCall {
                    encrypted_name: to_client(&relay, TOOL_NAME),
                    encrypted_arguments: to_client(&relay, TOOL_ARGUMENTS_2),
                },
            },
        ],
        finish_reason: Some("tool_calls".into()),
        usage: RelayUsage { prompt_tokens: Some(20), completion_tokens: Some(8), total_tokens: Some(28) },
        proof: None,
    };
    let (result, record) =
        complete_response(&completion, &mut session, &mut audit, "chatcmpl-2".into(), 7, "gemma-4-31b".into(), 1_000, 10);
    let out = result.unwrap();
    let message = &out.choices[0].message;
    assert!(message.content.is_none());
    let calls = message.tool_calls.as_ref().unwrap();
    assert_eq!(calls.len(), 2);
    assert_eq!(calls[0].function.name, TOOL_NAME);
    assert_eq!(calls[0].function.arguments, TOOL_ARGUMENTS);
    assert_eq!(calls[1].id, "call_secret_2");
    assert_eq!(calls[1].function.arguments, TOOL_ARGUMENTS_2);
    assert_eq!(out.choices[0].finish_reason, "tool_calls");
    assert_eq!(record.unwrap().status, RequestTerminalStatus::Completed);
}

#[test]
fn tampered_tool_ciphertext_fails_closed() {
    let model_key = ClientKeypair::generate();
    let req = followup_tool_request();
    let (relay, mut session) = assemble(&req, &test_model(), &model_key);
    let mut audit = RequestAudit::start("chatcmpl-3".into(), req.model.clone(), false, 900);
    let completion = RelayCompletion {
        id: "relay-tool-1".into(),
        model: None,
        encrypted_content: None,
        encrypted_reasoning_content: None,
        encrypted_refusal: None,
        encrypted_tool_calls: vec![RelayEncryptedToolCall {
            id: "call_secret_1".into(),
            kind: "function".into(),
            function: RelayEncryptedFunctionCall {
                encrypted_name: "not-provider-ciphertext".into(),
                encrypted_arguments: to_client(&relay, TOOL_ARGUMENTS),
            },
        }],
        finish_reason: Some("tool_calls".into()),
        usage: RelayUsage::default(),
        proof: None,
    };
    let (result, record) =
        complete_response(&completion, &mut session, &mut audit, "chatcmpl-3".into(), 7, "gemma-4-31b".into(), 1_000, 10);
    let error = result.unwrap_err();
    assert_eq!(error.status, 502);
    assert_eq!(error.kind, "decryption_error");
    assert_eq!(error.message, "failed to decrypt provider tool call name");
    let entry = record.unwrap();
    assert_eq!(entry.status, RequestTerminalStatus::Failed);
    assert_eq!(entry.error_kind.as_deref(), Some("decryption_error"));
    assert!(!entry.verified_completed());
}

#[test]
fn rejects_aggregate_encrypted_request_over_two_mib() {
    let model_key = ClientKeypair::generate();
    let text = "x".repeat(250_000);
    let messages = (0..5).map(|_| message(MessageRole::User, Some(&text))).collect();
    let req = request("gemma-4-31b", messages);
    assert!(validate_request(&req).is_ok());
    let (relay, _session) = assemble(&req, &test_model(), &model_key);
    let sealed: usize = relay
        .encrypted_messages
        .iter()
        .map(|m| m.encrypted_content.as_deref().unwrap().len())
        .sum();
    assert!(sealed > MAX_RELAY_REQUEST_BYTES);
    let error = check_relay_request_size(sealed).unwrap_err();
    assert_eq!(error.status, 413);
    assert_eq!(error.kind, "invalid_request_error");
    assert_eq!(error.message, "encrypted relay request exceeds 2097152 bytes");
    assert!(check_relay_request_size(MAX_RELAY_REQUEST_BYTES).is_ok());
}

#[test]
fn reasoning_effort_is_validated_and_relayed_for_stream_and_non_stream() {
    let model_key = ClientKeypair::generate();
    for stream in [false, true] {
        let mut req = request("glm-5-2", vec![message(MessageRole::User, Some("think"))]);
        req.stream = stream;
        req.reasoning_effort = Some(ReasoningEffort::Xhigh);
        let (relay, _session) = assemble(&req, &reasoning_model(), &model_key);
        assert_eq!(relay.reasoning_effort.as_deref(), Some("xhigh"));
        assert_eq!(relay.stream, stream);

        let mut unsupported = request("gemma-4-31b", vec![message(MessageRole::User, Some("think"))]);
        unsupported.stream = stream;
        unsupported.reasoning_effort = Some(ReasoningEffort::High);
        let error = check_reasoning_effort(&unsupported, &test_model()).unwrap_err();
        assert_eq!(error.status, 400);
        let registry = ProviderRegistry::builtin();
        let refused = engine_and_effort(&registry, &unsupported, &test_model()).unwrap_err();
        assert_eq!(refused.status, 400);
        assert_eq!(refused.message, "reasoning_effort is not supported for model gemma-4-31b");
        let (engine, effort) = engine_and_effort(&registry, &req, &reasoning_model()).unwrap();
        assert_eq!(engine.id, "near");
        assert_eq!(effort.as_deref(), Some("xhigh"));
        assert_eq!(error.kind, "invalid_request_error");
        assert_eq!(error.message, "reasoning_effort is not supported for model gemma-4-31b");
    }
}

#[test]
fn unknown_or_mismatched_provider_is_a_provider_error() {
    let registry = ProviderRegistry::builtin();
    let req = request("gemma-4-31b", vec![message(MessageRole::User, Some("hi"))]);
    let mut unknown = test_model();
    unknown.provider = "other".into();
    let error = engine_and_effort(&registry, &req, &unknown).unwrap_err();
    assert_eq!(error.status, 502);
    assert_eq!(error.kind, "provider_error");
    assert_eq!(error.message, "provider error: unknown provider: other");
    let mut mismatched = test_model();
    mismatched.e2ee_protocol = "near-v1".into();
    let error = engine_and_effort(&registry, &req, &mismatched).unwrap_err();
    assert_eq!(error.message, "provider error: provider contract mismatch for model gemma-4-31b");
}

#[test]
fn models_expose_supported_reasoning_efforts() {
    let list = model_list(&vec![test_model(), reasoning_model()]);
    assert_eq!(list.object, "list");
    assert_eq!(list.data.len(), 2);
    assert_eq!(list.data[0].id, "gemma-4-31b");
    assert!(list.data[0].supported_reasoning_efforts.is_empty());
    assert_eq!(list.data[1].id, "glm-5-2");
    assert_eq!(list.data[1].owned_by, "axiom");
    assert_eq!(list.data[1].object, "model");
    assert_eq!(list.data[1].supported_reasoning_efforts, vec!["low", "medium", "high", "xhigh"]);
}

fn stream_setup(stream_id: &str) -> (ClientKeypair, RelayChatRequest, NearSession, RequestAudit, StreamTranslator) {
    let model_key = ClientKeypair::generate();
    let mut req = request("gemma-4-31b", vec![message(MessageRole::User, Some("hi"))]);
    req.stream = true;
    let (relay, session) = assemble(&req, &test_model(), &model_key);
    let mut audit = RequestAudit::start(stream_id.into(), req.model.clone(), true, 900);
    audit.backend_key_accepted();
    audit.cancel_if_dropped();
    let translator = StreamTranslator::new(stream_id.into(), relay.model_id.clone(), 7, true);
    (model_key, relay, session, audit, translator)
}

fn text_of(frames: &[StreamFrame]) -> String {
    let mut out = String::new();
    for frame in frames {
        if let StreamFrame::Chunk(chunk) = frame {
            for choice in &chunk.choices {
                if let Some(content) = &choice.delta.content {
                    out.push_str(content);
                }
            }
        }
    }
    out
}

fn text_delta(content: String) -> RelayEvent {
    RelayEvent::Delta { content: Some(content), reasoning: None, refusal: None, tool_calls: vec![], sequence: 1 }
}

fn completed(total: u32) -> RelayEvent {
    RelayEvent::Completed {
        usage: RelayUsage { prompt_tokens: Some(10), completion_tokens: Some(2), total_tokens: Some(total) },
        finish_reason: Some("stop".into()),
    }
}

#[test]
fn stream_translates_text_to_openai_chunks() {
    let (_key, relay, mut session, mut audit, mut translator) = stream_setup("chatcmpl-s1");
    let mut frames = vec![translator.opening()];
    for piece in ["Hello ", "world"] {
        let step = translator.on_event(&mut audit, &mut session, Ok(text_delta(to_client(&relay, piece))), 1_000, 1);
        assert!(step.record.is_none());
        frames.extend(step.frames);
    }
    let step = translator.on_event(&mut audit, &mut session, Ok(completed(12)), 1_001, 2);
    let entry = step.record.unwrap();
    frames.extend(step.frames);
    assert_eq!(text_of(&frames), "Hello world");
    match &frames[0] {
        StreamFrame::Chunk(chunk) => assert_eq!(chunk.choices[0].delta.role, Some("assistant")),
        other => panic!("first frame is not a chunk: {other:?}"),
    }
    let usage = frames.iter().find_map(|f| match f {
        StreamFrame::Chunk(c) => c.usage.as_ref().map(|u| u.total_tokens),
        _ => None,
    });
    assert_eq!(usage, Some(12));
    assert!(matches!(frames.last(), Some(StreamFrame::Done)));
    assert_eq!(entry.status, RequestTerminalStatus::Completed);
    assert!(entry.e2ee.response_decrypted);
    assert_eq!(entry.finish_reason.as_deref(), Some("stop"));
}

#[test]
fn stream_ends_on_completed_even_if_relay_connection_stays_open() {
    let (_key, relay, mut session, mut audit, mut translator) = stream_setup("chatcmpl-s2");
    let done = translator.on_event(&mut audit, &mut session, Ok(completed(12)), 1_000, 1);
    assert!(matches!(done.frames.last(), Some(StreamFrame::Done)));
    assert!(done.record.is_some());
    assert!(translator.finished);
    let late = translator.on_event(&mut audit, &mut session, Ok(text_delta(to_client(&relay, "late"))), 1_001, 2);
    assert!(late.frames.is_empty());
    assert!(late.record.is_none());
    assert!(audit.abandon(1_002, 3).is_none());
}

#[test]
fn relay_cancelled_stream_is_recorded_once_as_cancelled() {
    let (_key, _relay, mut session, mut audit, mut translator) = stream_setup("chatcmpl-s3");
    let step = translator.on_event(
        &mut audit,
        &mut session,
        Ok(RelayEvent::Cancelled { reason: Some("relay stopped the request".into()) }),
        1_000,
        1,
    );
    let entry = step.record.unwrap();
    assert_eq!(entry.status, RequestTerminalStatus::Cancelled);
    assert_eq!(entry.error_kind.as_deref(), Some("relay_cancelled"));
    match &step.frames[0] {
        StreamFrame::Error(body) => {
            assert_eq!(body.message, "relay stopped the request");
            assert_eq!(body.kind, "cancelled");
            assert_eq!(body.code.as_deref(), Some("insufficient_credit"));
        }
        other => panic!("expected an error frame, got {other:?}"),
    }
    assert!(matches!(step.frames.last(), Some(StreamFrame::Done)));
    assert!(audit.abandon(1_001, 2).is_none());
}

#[test]
fn failed_and_incomplete_streams_are_never_recorded_as_completed() {
    let (_key, _relay, mut session, mut audit, mut translator) = stream_setup("chatcmpl-s4");
    let failed = translator.on_event(&mut audit, &mut session, Ok(RelayEvent::Failed { error: "provider failed".into() }), 1_000, 1);
    let entry = failed.record.unwrap();
    assert_eq!(entry.status, RequestTerminalStatus::Failed);
    assert_eq!(entry.error_kind.as_deref(), Some("upstream_error"));
    assert!(!entry.verified_completed());

    let (_key, _relay, _session, mut audit, mut translator) = stream_setup("chatcmpl-s5");
    let ended = translator.on_end(&mut audit, 1_000, 1);
    let entry = ended.record.unwrap();
    assert_eq!(entry.status, RequestTerminalStatus::Failed);
    assert_eq!(entry.error_kind.as_deref(), Some("stream_ended_without_completion"));
    assert!(!entry.verified_completed());
}

#[test]
fn dropping_stream_body_records_one_client_cancellation() {
    let (_key, _relay, _session, mut audit, _translator) = stream_setup("chatcmpl-s6");
    let entry = audit.abandon(1_000, 1).unwrap();
    assert_eq!(entry.status, RequestTerminalStatus::Cancelled);
    assert_eq!(entry.error_kind.as_deref(), Some("client_disconnected"));
    assert!(audit.abandon(1_001, 2).is_none());
}
