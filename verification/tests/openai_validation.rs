use axiom_proxy::openai::{
    validate_bytes, validate_finish_reason, validate_identifier, validate_tool_call_id,
    validate_tool_calls, ChatMessage, ChatRequest, ContentPart, FunctionCall, FunctionDefinition,
    MessageContent, MessageRole, ToolCall, ToolDefinition, MAX_FINISH_REASON_CHARS,
    MAX_FUNCTION_NAME_CHARS, MAX_MESSAGES, MAX_MESSAGE_TEXT_BYTES, MAX_TOOLS,
    MAX_TOOL_ARGUMENTS_BYTES, MAX_TOOL_CALLS, MAX_TOOL_CALL_ID_CHARS,
    MAX_TOOL_DESCRIPTION_BYTES, MAX_TOOL_PARAMETERS_BYTES,
};

fn message(role: MessageRole, content: Option<MessageContent>) -> ChatMessage {
    ChatMessage {
        role,
        content,
        reasoning_content: None,
        name: None,
        refusal: None,
        tool_calls: None,
        tool_call_id: None,
    }
}

fn user(text: &str) -> ChatMessage {
    message(MessageRole::User, Some(MessageContent::Text(text.to_string())))
}

fn request(messages: Vec<ChatMessage>) -> ChatRequest {
    ChatRequest {
        model: "m".to_string(),
        messages,
        stream: false,
        stream_options: None,
        max_tokens: None,
        sampling: None,
        response_format: None,
        reasoning_effort: None,
        tools: None,
        tool_choice: None,
        parallel_tool_calls: None,
        functions: None,
        function_call: None,
    }
}

fn read_call(id: &str) -> ToolCall {
    ToolCall {
        id: id.to_string(),
        kind: "function".to_string(),
        function: FunctionCall { name: "read".to_string(), arguments: "{}".to_string() },
    }
}

fn tool(name: &str, description: Option<&str>, parameters: &str) -> ToolDefinition {
    ToolDefinition {
        kind: "function".to_string(),
        function: FunctionDefinition {
            name: name.to_string(),
            description: description.map(|d| d.to_string()),
            parameters: parameters.to_string(),
            strict: None,
        },
    }
}

#[test]
fn content_parts_flatten_and_reject_non_text() {
    let text = message(
        MessageRole::User,
        Some(MessageContent::Parts(vec![ContentPart {
            kind: "text".to_string(),
            text: Some("hi".to_string()),
        }])),
    );
    assert_eq!(text.content_text().unwrap().as_deref(), Some("hi"));

    let image = message(
        MessageRole::User,
        Some(MessageContent::Parts(vec![ContentPart { kind: "image_url".to_string(), text: None }])),
    );
    assert!(image.content_text().is_err());
}

#[test]
fn assistant_null_content_with_tool_call_is_valid() {
    let mut assistant = message(MessageRole::Assistant, None);
    assistant.tool_calls = Some(vec![read_call("call_1")]);
    let mut tool_result = message(MessageRole::Tool, Some(MessageContent::Text("ok".to_string())));
    tool_result.tool_call_id = Some("call_1".to_string());
    let mut req = request(vec![user("hi"), assistant, tool_result]);
    req.tools = Some(vec![tool("read", Some("read"), "{\"type\":\"object\"}")]);
    req.validate().unwrap();
}

#[test]
fn rejects_legacy_and_invalid_role_shapes() {
    let mut legacy = request(vec![user("hi")]);
    legacy.functions = Some("[]".to_string());
    assert!(legacy.validate().unwrap_err().contains("legacy"));

    let missing_tool_id =
        request(vec![message(MessageRole::Tool, Some(MessageContent::Text("result".to_string())))]);
    assert!(missing_tool_id.validate().unwrap_err().contains("tool_call_id"));
}

#[test]
fn tool_role_alone_requires_all_fields_encryption() {
    let mut tool_result =
        message(MessageRole::Tool, Some(MessageContent::Text("result".to_string())));
    tool_result.tool_call_id = Some("call_1".to_string());
    let req = request(vec![tool_result]);
    req.validate().unwrap();
    assert!(req.requires_all_fields_encryption());
}

#[test]
fn validates_every_configured_count_and_length_boundary() {
    assert!(validate_identifier("name", &"a".repeat(MAX_FUNCTION_NAME_CHARS), 64).is_ok());
    assert!(validate_identifier("name", &"a".repeat(MAX_FUNCTION_NAME_CHARS + 1), 64).is_err());
    assert!(validate_tool_call_id(&"a".repeat(MAX_TOOL_CALL_ID_CHARS)).is_ok());
    assert!(validate_tool_call_id(&"a".repeat(MAX_TOOL_CALL_ID_CHARS + 1)).is_err());
    assert!(validate_bytes("content", &"a".repeat(MAX_MESSAGE_TEXT_BYTES), MAX_MESSAGE_TEXT_BYTES)
        .is_ok());
    assert!(validate_bytes(
        "content",
        &"a".repeat(MAX_MESSAGE_TEXT_BYTES + 1),
        MAX_MESSAGE_TEXT_BYTES
    )
    .is_err());
    assert!(validate_bytes(
        "description",
        &"a".repeat(MAX_TOOL_DESCRIPTION_BYTES),
        MAX_TOOL_DESCRIPTION_BYTES
    )
    .is_ok());
    assert!(validate_bytes(
        "description",
        &"a".repeat(MAX_TOOL_DESCRIPTION_BYTES + 1),
        MAX_TOOL_DESCRIPTION_BYTES
    )
    .is_err());
    assert!(validate_bytes(
        "arguments",
        &"a".repeat(MAX_TOOL_ARGUMENTS_BYTES),
        MAX_TOOL_ARGUMENTS_BYTES
    )
    .is_ok());
    assert!(validate_bytes(
        "arguments",
        &"a".repeat(MAX_TOOL_ARGUMENTS_BYTES + 1),
        MAX_TOOL_ARGUMENTS_BYTES
    )
    .is_err());
    assert!(validate_finish_reason(&"a".repeat(MAX_FINISH_REASON_CHARS)).is_ok());
    assert!(validate_finish_reason(&"a".repeat(MAX_FINISH_REASON_CHARS + 1)).is_err());
    assert!(validate_finish_reason("bad\nreason").is_err());

    let tool_calls: Vec<ToolCall> =
        (0..MAX_TOOL_CALLS).map(|index| read_call(&format!("call_{index}"))).collect();
    assert!(validate_tool_calls(&tool_calls).is_ok());
    let mut too_many_calls = tool_calls;
    too_many_calls.push(read_call("call_over"));
    assert!(validate_tool_calls(&too_many_calls).is_err());

    let parameters_at_limit = format!("{{\"x\":\"{}\"}}", "a".repeat(MAX_TOOL_PARAMETERS_BYTES - 8));
    let parameters_over_limit =
        format!("{{\"x\":\"{}\"}}", "a".repeat(MAX_TOOL_PARAMETERS_BYTES - 7));
    assert_eq!(parameters_at_limit.len(), MAX_TOOL_PARAMETERS_BYTES);
    assert_eq!(parameters_over_limit.len(), MAX_TOOL_PARAMETERS_BYTES + 1);
    assert!(tool("read", None, &parameters_at_limit).validate().is_ok());
    assert!(tool("read", None, &parameters_over_limit).validate().is_err());
}

#[test]
fn validates_message_and_tool_count_boundaries() {
    let at_message_limit = request((0..MAX_MESSAGES).map(|_| user("x")).collect());
    assert!(at_message_limit.validate().is_ok());
    let over_message_limit = request((0..=MAX_MESSAGES).map(|_| user("x")).collect());
    assert!(over_message_limit.validate().is_err());

    let mut at_tool_limit = request(vec![user("x")]);
    at_tool_limit.tools = Some(
        (0..MAX_TOOLS).map(|index| tool(&format!("tool_{index}"), None, "{\"type\":\"object\"}")).collect(),
    );
    assert!(at_tool_limit.validate().is_ok());
    let mut over_tool_limit = request(vec![user("x")]);
    over_tool_limit.tools = Some(
        (0..=MAX_TOOLS).map(|index| tool(&format!("tool_{index}"), None, "{\"type\":\"object\"}")).collect(),
    );
    assert!(over_tool_limit.validate().is_err());
}

#[test]
fn model_name_bounds_are_enforced() {
    let mut empty = request(vec![user("x")]);
    empty.model = String::new();
    assert_eq!(empty.validate().unwrap_err(), "model must be between 1 and 200 characters");
    let mut long = request(vec![user("x")]);
    long.model = "m".repeat(201);
    assert!(long.validate().is_err());
    let mut exact = request(vec![user("x")]);
    exact.model = "m".repeat(200);
    assert!(exact.validate().is_ok());
}

#[test]
fn empty_message_list_is_rejected() {
    assert_eq!(
        request(Vec::new()).validate().unwrap_err(),
        "messages must contain between 1 and 101 items"
    );
}

#[test]
fn parallel_tool_calls_need_tools() {
    let mut req = request(vec![user("x")]);
    req.parallel_tool_calls = Some(true);
    assert_eq!(req.validate().unwrap_err(), "parallel_tool_calls requires tools");
}

#[test]
fn plain_user_request_needs_no_all_fields_encryption() {
    let req = request(vec![user("hello")]);
    assert!(req.validate().is_ok());
    assert!(!req.requires_all_fields_encryption());
}
