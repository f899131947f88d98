//! OpenAI-compatible request/response types for the local `/v1` surface, and the request
//! validation rules that every chat request passes before any model attestation or encryption.
//!
//! JSON-valued request members (tool parameter schemas, sampling options, `response_format`, and
//! the rejected legacy `functions`/`function_call` members) are carried as their compact JSON text.

use vstd::prelude::*;
use vstd::string::*;

use crate::text::{byte_len, concat2, decimal, push_decimal, str_eq, string_is, utf8_len};

verus! {

pub const MAX_MESSAGES: usize = 101;
pub const MAX_TOOLS: usize = 128;
pub const MAX_TOOL_CALLS: usize = 128;
pub const MAX_TOOL_CALL_ID_CHARS: usize = 256;
pub const MAX_FUNCTION_NAME_CHARS: usize = 64;
pub const MAX_MESSAGE_TEXT_BYTES: usize = 262000;
pub const MAX_TOOL_DESCRIPTION_BYTES: usize = 16384;
pub const MAX_TOOL_PARAMETERS_BYTES: usize = 131072;
pub const MAX_TOOL_ARGUMENTS_BYTES: usize = 262000;
pub const MAX_FINISH_REASON_CHARS: usize = 64;
pub const MAX_RELAY_REQUEST_BYTES: usize = 2097152;
pub const MAX_MODEL_NAME_BYTES: usize = 200;

// ---- character classes ----

/// ASCII letter or digit.
pub open spec fn is_ascii_alnum(c: char) -> bool {
    ('a' <= c <= 'z') || ('A' <= c <= 'Z') || ('0' <= c <= '9')
}

/// Characters allowed in function names and message names.
pub open spec fn is_identifier_char(c: char) -> bool {
    is_ascii_alnum(c) || c == '_' || c == '-'
}

/// Characters allowed in opaque tool-call ids.
pub open spec fn is_tool_call_id_char(c: char) -> bool {
    is_identifier_char(c) || c == '.' || c == ':'
}

/// Unicode general category Cc (what `char::is_control` tests).
pub open spec fn is_control_char(c: char) -> bool {
    (c as u32) <= 0x1f || (0x7f <= (c as u32) && (c as u32) <= 0x9f)
}

pub open spec fn is_identifier(s: Seq<char>, max_chars: nat) -> bool {
    &&& 0 < s.len() <= max_chars
    &&& forall|i: int| 0 <= i < s.len() ==> is_identifier_char(#[trigger] s[i])
}

pub open spec fn is_tool_call_id(s: Seq<char>) -> bool {
    &&& 0 < s.len() <= MAX_TOOL_CALL_ID_CHARS
    &&& forall|i: int| 0 <= i < s.len() ==> is_tool_call_id_char(#[trigger] s[i])
}

pub open spec fn is_finish_reason(s: Seq<char>) -> bool {
    &&& 0 < s.len() <= MAX_FINISH_REASON_CHARS
    &&& forall|i: int| 0 <= i < s.len() ==> !is_control_char(#[trigger] s[i])
}

pub open spec fn identifier_message(label: Seq<char>, max_chars: nat) -> Seq<char> {
    label + " must be 1-"@ + decimal(max_chars) + " ASCII letters, digits, underscores, or hyphens"@
}

pub open spec fn bytes_message(label: Seq<char>, max_bytes: nat) -> Seq<char> {
    label + " exceeds "@ + decimal(max_bytes) + " bytes"@
}

pub open spec fn tool_call_id_message() -> Seq<char> {
    "tool_call_id must be 1-256 opaque ASCII characters"@
}

pub open spec fn finish_reason_message() -> Seq<char> {
    "finish_reason must be 1-64 non-control characters"@
}

fn is_identifier_char_exec(c: char) -> (r: bool)
    ensures
        r == is_identifier_char(c),
{
    ('a' <= c && c <= 'z') || ('A' <= c && c <= 'Z') || ('0' <= c && c <= '9') || c == '_' || c
        == '-'
}

fn is_control_char_exec(c: char) -> (r: bool)
    ensures
        r == is_control_char(c),
{
    let v = c as u32;
    v <= 0x1f || (0x7f <= v && v <= 0x9f)
}

fn identifier_error(label: &str, max_chars: usize) -> (r: String)
    ensures
        r@ == identifier_message(label@, max_chars as nat),
{
    let mut message = String::from_str(label);
    message.append(" must be 1-");
    push_decimal(&mut message, max_chars as u64);
    message.append(" ASCII letters, digits, underscores, or hyphens");
    message
}

/// Rejects a label unless it is 1..=`max_chars` ASCII letters, digits, `_` or `-`.
pub fn validate_identifier(label: &str, value: &str, max_chars: usize) -> (r: Result<(), String>)
    ensures
        r is Ok <==> is_identifier(value@, max_chars as nat),
        r matches Err(e) ==> e@ == identifier_message(label@, max_chars as nat),
{
    let n = value.unicode_len();
    if n == 0 || n > max_chars {
        return Err(identifier_error(label, max_chars));
    }
    let mut i: usize = 0;
    while i < n
        invariant
            n == value@.len(),
            i <= n,
            forall|j: int| 0 <= j < i ==> is_identifier_char(#[trigger] value@[j]),
        decreases n - i,
    {
        if !is_identifier_char_exec(value.get_char(i)) {
            return Err(identifier_error(label, max_chars));
        }
        i = i + 1;
    }
    Ok(())
}

/// Rejects a tool-call id unless it is 1..=256 opaque ASCII characters.
pub fn validate_tool_call_id(value: &str) -> (r: Result<(), String>)
    ensures
        r is Ok <==> is_tool_call_id(value@),
        r matches Err(e) ==> e@ == tool_call_id_message(),
{
    let n = value.unicode_len();
    if n == 0 || n > MAX_TOOL_CALL_ID_CHARS {
        return Err(String::from_str("tool_call_id must be 1-256 opaque ASCII characters"));
    }
    let mut i: usize = 0;
    while i < n
        invariant
            n == value@.len(),
            i <= n,
            forall|j: int| 0 <= j < i ==> is_tool_call_id_char(#[trigger] value@[j]),
        decreases n - i,
    {
        let c = value.get_char(i);
        if !(is_identifier_char_exec(c) || c == '.' || c == ':') {
            return Err(String::from_str("tool_call_id must be 1-256 opaque ASCII characters"));
        }
        i = i + 1;
    }
    Ok(())
}

/// Rejects a finish reason unless it is 1..=64 non-control characters.
pub fn validate_finish_reason(value: &str) -> (r: Result<(), String>)
    ensures
        r is Ok <==> is_finish_reason(value@),
        r matches Err(e) ==> e@ == finish_reason_message(),
{
    let n = value.unicode_len();
    if n == 0 || n > MAX_FINISH_REASON_CHARS {
        return Err(String::from_str("finish_reason must be 1-64 non-control characters"));
    }
    let mut i: usize = 0;
    while i < n
        invariant
            n == value@.len(),
            i <= n,
            forall|j: int| 0 <= j < i ==> !is_control_char(#[trigger] value@[j]),
        decreases n - i,
    {
        if is_control_char_exec(value.get_char(i)) {
            return Err(String::from_str("finish_reason must be 1-64 non-control characters"));
        }
        i = i + 1;
    }
    Ok(())
}

/// Rejects a value whose UTF-8 encoding is longer than `max_bytes`.
pub fn validate_bytes(label: &str, value: &str, max_bytes: usize) -> (r: Result<(), String>)
    ensures
        r is Ok <==> byte_len(value@) <= max_bytes,
        r matches Err(e) ==> e@ == bytes_message(label@, max_bytes as nat),
{
    if utf8_len(value) > max_bytes {
        let mut message = String::from_str(label);
        message.append(" exceeds ");
        push_decimal(&mut message, max_bytes as u64);
        message.append(" bytes");
        Err(message)
    } else {
        Ok(())
    }
}

// ---- request types ----

/// The closed set of OpenAI `reasoning_effort` values.
#[derive(Clone, Copy, Debug, PartialEq, Eq, Structural)]
pub enum ReasoningEffort {
    Low,
    Medium,
    High,
    Xhigh,
}

pub open spec fn effort_name(e: ReasoningEffort) -> Seq<char> {
    match e {
        ReasoningEffort::Low => "low"@,
        ReasoningEffort::Medium => "medium"@,
        ReasoningEffort::High => "high"@,
        ReasoningEffort::Xhigh => "xhigh"@,
    }
}

impl ReasoningEffort {
    pub fn as_str(self) -> (r: &'static str)
        ensures
            r@ == effort_name(self),
    {
        match self {
            ReasoningEffort::Low => "low",
            ReasoningEffort::Medium => "medium",
            ReasoningEffort::High => "high",
            ReasoningEffort::Xhigh => "xhigh",
        }
    }
}

#[derive(Clone, Copy, Debug, PartialEq, Eq, Structural)]
pub enum MessageRole {
    System,
    Developer,
    User,
    Assistant,
    Tool,
}

pub open spec fn role_name(r: MessageRole) -> Seq<char> {
    match r {
        MessageRole::System => "system"@,
        MessageRole::Developer => "developer"@,
        MessageRole::User => "user"@,
        MessageRole::Assistant => "assistant"@,
        MessageRole::Tool => "tool"@,
    }
}

impl MessageRole {
    pub fn as_str(self) -> (r: &'static str)
        ensures
            r@ == role_name(self),
    {
        match self {
            MessageRole::System => "system",
            MessageRole::Developer => "developer",
            MessageRole::User => "user",
            MessageRole::Assistant => "assistant",
            MessageRole::Tool => "tool",
        }
    }
}

#[derive(Debug)]
pub struct StreamOptions {
    pub include_usage: bool,
}

/// One element of an array-form message `content`.
#[derive(Debug)]
pub struct ContentPart {
    pub kind: String,
    pub text: Option<String>,
}

#[derive(Debug)]
pub enum MessageContent {
    Text(String),
    Parts(Vec<ContentPart>),
}

#[derive(Debug)]
pub struct FunctionCall {
    pub name: String,
    pub arguments: String,
}

#[derive(Debug)]
pub struct ToolCall {
    pub id: String,
    pub kind: String,
    pub function: FunctionCall,
}

#[derive(Debug)]
pub struct ChatMessage {
    pub role: MessageRole,
    pub content: Option<MessageContent>,
    pub reasoning_content: Option<String>,
    pub name: Option<String>,
    pub refusal: Option<String>,
    pub tool_calls: Option<Vec<ToolCall>>,
    pub tool_call_id: Option<String>,
}

/// A declared function tool. `parameters` is the compact JSON text of the parameter schema.
#[derive(Debug)]
pub struct FunctionDefinition {
    pub name: String,
    pub description: Option<String>,
    pub parameters: String,
    pub strict: Option<bool>,
}

#[derive(Debug)]
pub struct ToolDefinition {
    pub kind: String,
    pub function: FunctionDefinition,
}

#[derive(Debug)]
pub struct NamedFunction {
    pub name: String,
}

#[derive(Debug)]
pub struct NamedToolChoice {
    pub kind: String,
    pub function: NamedFunction,
}

#[derive(Debug)]
pub enum ToolChoice {
    Mode(String),
    Named(NamedToolChoice),
}

/// A chat-completions request. `sampling` is the compact JSON object of the sampling parameters
/// that were present (temperature, top_p, frequency_penalty, presence_penalty, seed, stop,
/// logit_bias), or `None` when none was; the JSON-valued members are carried as their JSON text.
#[derive(Debug)]
pub struct ChatRequest {
    pub model: String,
    pub messages: Vec<ChatMessage>,
    pub stream: bool,
    pub stream_options: Option<StreamOptions>,
    pub max_tokens: Option<u32>,
    pub sampling: Option<String>,
    pub response_format: Option<String>,
    pub reasoning_effort: Option<ReasoningEffort>,
    pub tools: Option<Vec<ToolDefinition>>,
    pub tool_choice: Option<ToolChoice>,
    pub parallel_tool_calls: Option<bool>,
    pub functions: Option<String>,
    pub function_call: Option<String>,
}

// ---- content flattening ----

pub open spec fn part_text(p: ContentPart) -> Seq<char> {
    match p.text {
        Some(t) => t@,
        None => Seq::<char>::empty(),
    }
}

/// Concatenated text of the parts, or the error for the first non-text part.
pub open spec fn parts_text(parts: Seq<ContentPart>) -> Result<Seq<char>, Seq<char>>
    decreases parts.len(),
{
    if parts.len() == 0 {
        Ok(Seq::<char>::empty())
    } else {
        match parts_text(parts.drop_last()) {
            Err(e) => Err(e),
            Ok(t) => {
                let p = parts.last();
                if p.kind@ == "text"@ {
                    Ok(t + part_text(p))
                } else {
                    Err("unsupported content part type: "@ + p.kind@)
                }
            },
        }
    }
}

pub open spec fn content_text(c: MessageContent) -> Result<Seq<char>, Seq<char>> {
    match c {
        MessageContent::Text(v) => Ok(v@),
        MessageContent::Parts(ps) => parts_text(ps@),
    }
}

pub open spec fn string_result(r: Result<String, String>) -> Result<Seq<char>, Seq<char>> {
    match r {
        Ok(v) => Ok(v@),
        Err(e) => Err(e@),
    }
}

pub open spec fn opt_view(o: Option<String>) -> Option<Seq<char>> {
    match o {
        Some(v) => Some(v@),
        None => None,
    }
}

impl MessageContent {
    /// The message text: the string itself, or the concatenated text of all parts when every part
    /// is a text part.
    pub fn as_text(&self) -> (r: Result<String, String>)
        ensures
            string_result(r) == content_text(*self),
    {
        match self {
            MessageContent::Text(value) => Ok(value.clone()),
            MessageContent::Parts(parts) => {
                let mut output = String::new();
                let mut i: usize = 0;
                proof {
                    assert(parts@.take(0) =~= Seq::<ContentPart>::empty());
                }
                while i < parts.len()
                    invariant
                        i <= parts@.len(),
                        content_text(*self) == parts_text(parts@),
                        parts_text(parts@.take(i as int)) == Ok::<Seq<char>, Seq<char>>(output@),
                    decreases parts@.len() - i,
                {
                    let part = &parts[i];
                    proof {
                        assert(parts@.take(i + 1).drop_last() =~= parts@.take(i as int));
                        assert(parts@.take(i + 1).last() == parts@[i as int]);
                    }
                    if !string_is(&part.kind, "text") {
                        let message = concat2("unsupported content part type: ", part.kind.as_str());
                        proof {
                            assert(parts_text(parts@.take(i + 1)) == Err::<Seq<char>, Seq<char>>(
                                message@,
                            ));
                            lemma_parts_error_persists(parts@, i as nat + 1);
                            assert(parts@.take(parts@.len() as int) =~= parts@);
                            assert(parts_text(parts@) == Err::<Seq<char>, Seq<char>>(message@));
                        }
                        return Err(message);
                    }
                    match &part.text {
                        Some(t) => output.append(t.as_str()),
                        None => {
                            proof {
                                assert(output@ + Seq::<char>::empty() =~= output@);
                            }
                        },
                    }
                    i = i + 1;
                }
                proof {
                    assert(parts@.take(parts@.len() as int) =~= parts@);
                }
                Ok(output)
            },
        }
    }
}

/// Once a prefix of the parts fails, every longer prefix fails with the same error.
pub proof fn lemma_parts_error_persists(parts: Seq<ContentPart>, n: nat)
    requires
        n <= parts.len(),
        parts_text(parts.take(n as int)) is Err,
    ensures
        parts_text(parts.take(parts.len() as int)) == parts_text(parts.take(n as int)),
    decreases parts.len() - n,
{
    if n < parts.len() {
        assert(parts.take(n + 1int).drop_last() =~= parts.take(n as int));
        lemma_parts_error_persists(parts, n + 1);
    }
}


// ---- ordered rule checks ----

/// The first error among the checks `0..n`, in order: `check(i)` is consulted only when every
/// earlier check passed.
pub open spec fn first_error(n: nat, check: spec_fn(int) -> Option<Seq<char>>) -> Option<Seq<char>>
    decreases n,
{
    if n == 0 {
        None
    } else {
        match first_error((n - 1) as nat, check) {
            Some(e) => Some(e),
            None => check(n - 1),
        }
    }
}

/// Once a prefix of the checks has failed, longer prefixes report the same error.
pub proof fn lemma_first_error_persists(i: nat, n: nat, check: spec_fn(int) -> Option<Seq<char>>)
    requires
        i <= n,
        first_error(i, check) is Some,
    ensures
        first_error(n, check) == first_error(i, check),
    decreases n - i,
{
    if i < n {
        lemma_first_error_persists(i, (n - 1) as nat, check);
    }
}

/// When no check fails, each one passes.
pub proof fn lemma_first_error_none(n: nat, check: spec_fn(int) -> Option<Seq<char>>, i: int)
    requires
        first_error(n, check) is None,
        0 <= i < n,
    ensures
        check(i) is None,
    decreases n,
{
    if i < n - 1 {
        lemma_first_error_none((n - 1) as nat, check, i);
    }
}

pub open spec fn err_view(r: Result<(), String>) -> Option<Seq<char>> {
    match r {
        Ok(_) => None,
        Err(e) => Some(e@),
    }
}

// ---- tool calls ----

/// A tool call as the four texts the rules read: id, type, function name, arguments.
pub open spec fn call_view(c: ToolCall) -> (Seq<char>, Seq<char>, Seq<char>, Seq<char>) {
    (c.id@, c.kind@, c.function.name@, c.function.arguments@)
}

pub open spec fn call_views(calls: Seq<ToolCall>) -> Seq<(Seq<char>, Seq<char>, Seq<char>, Seq<char>)> {
    calls.map_values(|c: ToolCall| call_view(c))
}

/// The rules for the `i`th tool call, over the calls' texts.
pub open spec fn call_error_at(calls: Seq<(Seq<char>, Seq<char>, Seq<char>, Seq<char>)>, i: int) -> Option<
    Seq<char>,
> {
    let call = calls[i];
    if call.1 != "function"@ {
        Some("only function tool_calls are supported"@)
    } else if !is_tool_call_id(call.0) {
        Some(tool_call_id_message())
    } else if exists|j: int| 0 <= j < i && (#[trigger] calls[j]).0 == call.0 {
        Some("tool_call ids must be unique within a message"@)
    } else if !is_identifier(call.2, MAX_FUNCTION_NAME_CHARS as nat) {
        Some(identifier_message("tool_call function name"@, MAX_FUNCTION_NAME_CHARS as nat))
    } else if byte_len(call.3) > MAX_TOOL_ARGUMENTS_BYTES {
        Some(bytes_message("tool_call function arguments"@, MAX_TOOL_ARGUMENTS_BYTES as nat))
    } else {
        None
    }
}

pub open spec fn call_checks(calls: Seq<(Seq<char>, Seq<char>, Seq<char>, Seq<char>)>) -> spec_fn(
    int,
) -> Option<Seq<char>> {
    |i: int| call_error_at(calls, i)
}

/// The rules for a message's tool calls, over the calls' texts.
pub open spec fn calls_error(calls: Seq<(Seq<char>, Seq<char>, Seq<char>, Seq<char>)>) -> Option<
    Seq<char>,
> {
    if calls.len() == 0 || calls.len() > MAX_TOOL_CALLS {
        Some("tool_calls must contain between 1 and 128 items"@)
    } else {
        first_error(calls.len(), call_checks(calls))
    }
}

pub open spec fn tool_call_error_at(calls: Seq<ToolCall>, i: int) -> Option<Seq<char>> {
    call_error_at(call_views(calls), i)
}

pub open spec fn tool_call_checks(calls: Seq<ToolCall>) -> spec_fn(int) -> Option<Seq<char>> {
    call_checks(call_views(calls))
}

pub open spec fn tool_calls_error(calls: Seq<ToolCall>) -> Option<Seq<char>> {
    calls_error(call_views(calls))
}

/// Whether some call among the first `upto` has the id `id`.
fn id_seen(calls: &[ToolCall], upto: usize, id: &String) -> (r: bool)
    requires
        upto <= calls@.len(),
    ensures
        r == exists|j: int| 0 <= j < upto && (#[trigger] calls@[j]).id@ == id@,
{
    let mut j: usize = 0;
    while j < upto
        invariant
            upto <= calls@.len(),
            j <= upto,
            forall|k: int| 0 <= k < j ==> (#[trigger] calls@[k]).id@ != id@,
        decreases upto - j,
    {
        if str_eq(calls[j].id.as_str(), id.as_str()) {
            return true;
        }
        j = j + 1;
    }
    false
}

/// Checks an assistant message's `tool_calls`: 1..=128 function calls with valid, pairwise
/// distinct ids, valid function names and bounded argument text.
pub fn validate_tool_calls(tool_calls: &[ToolCall]) -> (r: Result<(), String>)
    ensures
        err_view(r) == tool_calls_error(tool_calls@),
{
    let n = tool_calls.len();
    if n == 0 || n > MAX_TOOL_CALLS {
        return Err(String::from_str("tool_calls must contain between 1 and 128 items"));
    }
    let ghost checks = tool_call_checks(tool_calls@);
    let mut i: usize = 0;
    while i < n
        invariant
            n == tool_calls@.len(),
            0 < n <= MAX_TOOL_CALLS,
            i <= n,
            checks == tool_call_checks(tool_calls@),
            first_error(i as nat, checks) is None,
        decreases n - i,
    {
        let call = &tool_calls[i];
        let mut failure: Option<String> = None;
        if !string_is(&call.kind, "function") {
            failure = Some(String::from_str("only function tool_calls are supported"));
        } else if validate_tool_call_id(call.id.as_str()).is_err() {
            failure = Some(String::from_str("tool_call_id must be 1-256 opaque ASCII characters"));
        } else if id_seen(tool_calls, i, &call.id) {
            failure = Some(String::from_str("tool_call ids must be unique within a message"));
        } else {
            match validate_identifier(
                "tool_call function name",
                call.function.name.as_str(),
                MAX_FUNCTION_NAME_CHARS,
            ) {
                Err(e) => {
                    failure = Some(e);
                },
                Ok(()) => {
                    match validate_bytes(
                        "tool_call function arguments",
                        call.function.arguments.as_str(),
                        MAX_TOOL_ARGUMENTS_BYTES,
                    ) {
                        Err(e) => {
                            failure = Some(e);
                        },
                        Ok(()) => {},
                    }
                },
            }
        }
        proof {
            let views = call_views(tool_calls@);
            assert(views[i as int] == call_view(tool_calls@[i as int]));
            assert forall|j: int|
                #![trigger views[j]]
                #![trigger tool_calls@[j]]
                0 <= j < i implies views[j].0 == tool_calls@[j].id@ by {
                assert(views[j] == call_view(tool_calls@[j]));
            }
            assert(checks(i as int) == call_error_at(views, i as int));
        }
        match failure {
            Some(e) => {
                proof {
                    assert(checks(i as int) == Some(e@));
                    assert(first_error((i + 1) as nat, checks) == Some(e@));
                    lemma_first_error_persists((i + 1) as nat, n as nat, checks);
                }
                return Err(e);
            },
            None => {},
        }
        i = i + 1;
    }
    Ok(())
}

// ---- tool definitions and tool_choice ----

/// The rules for one declared tool. The parameter schema is a JSON object exactly when its compact
/// text starts with `{`; its size limit applies to that compact text.
pub open spec fn tool_definition_error(tool: ToolDefinition) -> Option<Seq<char>> {
    let f = tool.function;
    if tool.kind@ != "function"@ {
        Some("only function tools are supported"@)
    } else if !is_identifier(f.name@, MAX_FUNCTION_NAME_CHARS as nat) {
        Some(identifier_message("tool function name"@, MAX_FUNCTION_NAME_CHARS as nat))
    } else if f.description is Some && byte_len(f.description->0@) > MAX_TOOL_DESCRIPTION_BYTES {
        Some(bytes_message("tool function description"@, MAX_TOOL_DESCRIPTION_BYTES as nat))
    } else if !(f.parameters@.len() > 0 && f.parameters@[0] == '{') {
        Some("tool function parameters must be a JSON object"@)
    } else if byte_len(f.parameters@) > MAX_TOOL_PARAMETERS_BYTES {
        Some("tool function parameters exceed 131072 bytes"@)
    } else {
        None
    }
}

impl ToolDefinition {
    /// Checks one declared tool: a function tool with a valid name, a bounded description and a
    /// JSON-object parameter schema of bounded size.
    pub fn validate(&self) -> (r: Result<(), String>)
        ensures
            err_view(r) == tool_definition_error(*self),
    {
        if !string_is(&self.kind, "function") {
            return Err(String::from_str("only function tools are supported"));
        }
        validate_identifier("tool function name", self.function.name.as_str(), MAX_FUNCTION_NAME_CHARS)?;
        match &self.function.description {
            Some(description) => {
                validate_bytes(
                    "tool function description",
                    description.as_str(),
                    MAX_TOOL_DESCRIPTION_BYTES,
                )?;
            },
            None => {},
        }
        let parameters = self.function.parameters.as_str();
        if parameters.unicode_len() == 0 || parameters.get_char(0) != '{' {
            return Err(String::from_str("tool function parameters must be a JSON object"));
        }
        if utf8_len(parameters) > MAX_TOOL_PARAMETERS_BYTES {
            return Err(String::from_str("tool function parameters exceed 131072 bytes"));
        }
        Ok(())
    }
}

pub open spec fn declares_tool(tools: Seq<ToolDefinition>, name: Seq<char>) -> bool {
    exists|i: int| 0 <= i < tools.len() && (#[trigger] tools[i]).function.name@ == name
}

pub open spec fn tools_view(tools: Option<&[ToolDefinition]>) -> Option<Seq<ToolDefinition>> {
    match tools {
        Some(t) => Some(t@),
        None => None,
    }
}

pub open spec fn tool_choice_error(choice: ToolChoice, tools: Option<Seq<ToolDefinition>>) -> Option<
    Seq<char>,
> {
    match choice {
        ToolChoice::Mode(mode) => {
            if !(mode@ == "auto"@ || mode@ == "none"@ || mode@ == "required"@) {
                Some("tool_choice must be auto, none, required, or a named function"@)
            } else if mode@ != "none"@ && tools is None {
                Some("tool_choice requires tools"@)
            } else {
                None
            }
        },
        ToolChoice::Named(named) => {
            if named.kind@ != "function"@ {
                Some("named tool_choice type must be function"@)
            } else if !is_identifier(named.function.name@, MAX_FUNCTION_NAME_CHARS as nat) {
                Some(identifier_message("tool_choice function name"@, MAX_FUNCTION_NAME_CHARS as nat))
            } else if tools is None {
                Some("named tool_choice requires tools"@)
            } else if !declares_tool(tools->0, named.function.name@) {
                Some("named tool_choice must reference a declared tool"@)
            } else {
                None
            }
        },
    }
}

impl ToolChoice {
    /// Checks `tool_choice` against the declared tools.
    pub fn validate(&self, tools: Option<&[ToolDefinition]>) -> (r: Result<(), String>)
        ensures
            err_view(r) == tool_choice_error(*self, tools_view(tools)),
    {
        match self {
            ToolChoice::Mode(mode) => {
                let is_none = string_is(mode, "none");
                if !(string_is(mode, "auto") || is_none || string_is(mode, "required")) {
                    return Err(
                        String::from_str(
                            "tool_choice must be auto, none, required, or a named function",
                        ),
                    );
                }
                if !is_none && tools.is_none() {
                    return Err(String::from_str("tool_choice requires tools"));
                }
                Ok(())
            },
            ToolChoice::Named(choice) => {
                if !string_is(&choice.kind, "function") {
                    return Err(String::from_str("named tool_choice type must be function"));
                }
                validate_identifier(
                    "tool_choice function name",
                    choice.function.name.as_str(),
                    MAX_FUNCTION_NAME_CHARS,
                )?;
                let declared = match tools {
                    Some(t) => t,
                    None => {
                        return Err(String::from_str("named tool_choice requires tools"));
                    },
                };
                let mut i: usize = 0;
                while i < declared.len()
                    invariant
                        i <= declared@.len(),
                        tools_view(tools) == Some(declared@),
                        *self == ToolChoice::Named(*choice),
                        choice.kind@ == "function"@,
                        is_identifier(choice.function.name@, MAX_FUNCTION_NAME_CHARS as nat),
                        forall|k: int|
                            0 <= k < i ==> (#[trigger] declared@[k]).function.name@
                                != choice.function.name@,
                    decreases declared@.len() - i,
                {
                    if str_eq(declared[i].function.name.as_str(), choice.function.name.as_str()) {
                        return Ok(());
                    }
                    i = i + 1;
                }
                Err(String::from_str("named tool_choice must reference a declared tool"))
            },
        }
    }
}

// ---- messages ----

/// The flattened message text: `Ok(None)` without content, the text, or the flattening error.
pub open spec fn message_text(m: ChatMessage) -> Result<Option<Seq<char>>, Seq<char>> {
    match m.content {
        None => Ok(None),
        Some(c) => match content_text(c) {
            Ok(t) => Ok(Some(t)),
            Err(e) => Err(e),
        },
    }
}

pub open spec fn opt_string_result(r: Result<Option<String>, String>) -> Result<
    Option<Seq<char>>,
    Seq<char>,
> {
    match r {
        Ok(Some(v)) => Ok(Some(v@)),
        Ok(None) => Ok(None),
        Err(e) => Err(e@),
    }
}

pub open spec fn too_long(v: Option<String>, max_bytes: nat) -> bool {
    v is Some && byte_len(v->0@) > max_bytes
}

pub open spec fn role_error(m: ChatMessage, has_content: bool) -> Option<Seq<char>> {
    match m.role {
        MessageRole::System | MessageRole::Developer | MessageRole::User => {
            if !has_content {
                Some("content is required for system, developer, and user messages"@)
            } else if m.tool_calls is Some || m.tool_call_id is Some || m.refusal is Some {
                Some("tool_calls, tool_call_id, and refusal are invalid for this role"@)
            } else if m.reasoning_content is Some {
                Some("reasoning_content is only valid for assistant messages"@)
            } else {
                None
            }
        },
        MessageRole::Assistant => {
            if m.tool_call_id is Some {
                Some("tool_call_id is only valid for tool messages"@)
            } else if !has_content && !(m.tool_calls is Some && m.tool_calls->0@.len() > 0)
                && m.refusal is None {
                Some("assistant message requires content, refusal, or tool_calls"@)
            } else if m.tool_calls is Some {
                tool_calls_error(m.tool_calls->0@)
            } else {
                None
            }
        },
        MessageRole::Tool => {
            if !has_content {
                Some("content is required for tool messages"@)
            } else if m.tool_call_id is None {
                Some("tool_call_id is required for tool messages"@)
            } else if !is_tool_call_id(m.tool_call_id->0@) {
                Some(tool_call_id_message())
            } else if m.tool_calls is Some || m.refusal is Some || m.reasoning_content is Some
                || m.name is Some {
                Some(
                    "tool_calls, refusal, reasoning_content, and name are invalid for tool messages"@,
                )
            } else {
                None
            }
        },
    }
}

/// The rules for one message, in the order they are checked.
pub open spec fn message_error(m: ChatMessage) -> Option<Seq<char>> {
    match message_text(m) {
        Err(e) => Some(e),
        Ok(text) => {
            if text is Some && byte_len(text->0) > MAX_MESSAGE_TEXT_BYTES {
                Some(bytes_message("content"@, MAX_MESSAGE_TEXT_BYTES as nat))
            } else if too_long(m.reasoning_content, MAX_MESSAGE_TEXT_BYTES as nat) {
                Some(bytes_message("reasoning_content"@, MAX_MESSAGE_TEXT_BYTES as nat))
            } else if m.name is Some && !is_identifier(
                m.name->0@,
                MAX_FUNCTION_NAME_CHARS as nat,
            ) {
                Some(identifier_message("name"@, MAX_FUNCTION_NAME_CHARS as nat))
            } else if too_long(m.refusal, MAX_MESSAGE_TEXT_BYTES as nat) {
                Some(bytes_message("refusal"@, MAX_MESSAGE_TEXT_BYTES as nat))
            } else {
                role_error(m, text is Some)
            }
        },
    }
}

/// Whether a message carries data that only the all-fields encryption mode protects.
pub open spec fn all_fields_data(m: ChatMessage) -> bool {
    m.role == MessageRole::Tool || m.tool_call_id is Some || m.name is Some || m.refusal is Some
        || m.tool_calls is Some
}

fn check_optional_bytes(label: &str, value: &Option<String>, max_bytes: usize) -> (r: Result<
    (),
    String,
>)
    ensures
        r is Ok <==> !too_long(*value, max_bytes as nat),
        r matches Err(e) ==> e@ == bytes_message(label@, max_bytes as nat),
{
    match value {
        Some(v) => validate_bytes(label, v.as_str(), max_bytes),
        None => Ok(()),
    }
}

impl ChatMessage {
    /// The message text; see [`MessageContent::as_text`].
    pub fn content_text(&self) -> (r: Result<Option<String>, String>)
        ensures
            opt_string_result(r) == message_text(*self),
    {
        match &self.content {
            None => Ok(None),
            Some(c) => match c.as_text() {
                Ok(t) => Ok(Some(t)),
                Err(e) => Err(e),
            },
        }
    }

    pub fn has_all_fields_data(&self) -> (r: bool)
        ensures
            r == all_fields_data(*self),
    {
        self.role == MessageRole::Tool || self.tool_call_id.is_some() || self.name.is_some()
            || self.refusal.is_some() || self.tool_calls.is_some()
    }

    fn validate_role(&self, has_content: bool) -> (r: Result<(), String>)
        ensures
            err_view(r) == role_error(*self, has_content),
    {
        match self.role {
            MessageRole::System | MessageRole::Developer | MessageRole::User => {
                if !has_content {
                    return Err(
                        String::from_str(
                            "content is required for system, developer, and user messages",
                        ),
                    );
                }
                if self.tool_calls.is_some() || self.tool_call_id.is_some()
                    || self.refusal.is_some() {
                    return Err(
                        String::from_str(
                            "tool_calls, tool_call_id, and refusal are invalid for this role",
                        ),
                    );
                }
                if self.reasoning_content.is_some() {
                    return Err(
                        String::from_str("reasoning_content is only valid for assistant messages"),
                    );
                }
                Ok(())
            },
            MessageRole::Assistant => {
                if self.tool_call_id.is_some() {
                    return Err(String::from_str("tool_call_id is only valid for tool messages"));
                }
                let has_tool_calls = match &self.tool_calls {
                    Some(calls) => calls.len() > 0,
                    None => false,
                };
                if !has_content && !has_tool_calls && self.refusal.is_none() {
                    return Err(
                        String::from_str(
                            "assistant message requires content, refusal, or tool_calls",
                        ),
                    );
                }
                match &self.tool_calls {
                    Some(calls) => validate_tool_calls(calls.as_slice()),
                    None => Ok(()),
                }
            },
            MessageRole::Tool => {
                if !has_content {
                    return Err(String::from_str("content is required for tool messages"));
                }
                match &self.tool_call_id {
                    None => {
                        return Err(String::from_str("tool_call_id is required for tool messages"));
                    },
                    Some(id) => {
                        validate_tool_call_id(id.as_str())?;
                    },
                }
                if self.tool_calls.is_some() || self.refusal.is_some()
                    || self.reasoning_content.is_some() || self.name.is_some() {
                    return Err(
                        String::from_str(
                            "tool_calls, refusal, reasoning_content, and name are invalid for tool messages",
                        ),
                    );
                }
                Ok(())
            },
        }
    }

    /// Checks one message: its text flattens, every text member is within its byte limit, the
    /// name is an identifier, and the members present fit the role.
    pub fn validate(&self) -> (r: Result<(), String>)
        ensures
            err_view(r) == message_error(*self),
    {
        let content = self.content_text()?;
        match &content {
            Some(value) => {
                validate_bytes("content", value.as_str(), MAX_MESSAGE_TEXT_BYTES)?;
            },
            None => {},
        }
        check_optional_bytes("reasoning_content", &self.reasoning_content, MAX_MESSAGE_TEXT_BYTES)?;
        match &self.name {
            Some(value) => {
                validate_identifier("name", value.as_str(), MAX_FUNCTION_NAME_CHARS)?;
            },
            None => {},
        }
        check_optional_bytes("refusal", &self.refusal, MAX_MESSAGE_TEXT_BYTES)?;
        self.validate_role(content.is_some())
    }
}

// ---- whole requests ----

pub open spec fn tool_error_at(tools: Seq<ToolDefinition>, i: int) -> Option<Seq<char>> {
    match tool_definition_error(tools[i]) {
        Some(e) => Some(e),
        None => if exists|j: int|
            0 <= j < i && (#[trigger] tools[j]).function.name@ == tools[i].function.name@ {
            Some("tool function names must be unique"@)
        } else {
            None
        },
    }
}

pub open spec fn tool_checks(tools: Seq<ToolDefinition>) -> spec_fn(int) -> Option<Seq<char>> {
    |i: int| tool_error_at(tools, i)
}

pub open spec fn message_error_at(messages: Seq<ChatMessage>, i: int) -> Option<Seq<char>> {
    match message_error(messages[i]) {
        Some(e) => Some("messages["@ + decimal(i as nat) + "]: "@ + e),
        None => None,
    }
}

pub open spec fn message_checks(messages: Seq<ChatMessage>) -> spec_fn(int) -> Option<Seq<char>> {
    |i: int| message_error_at(messages, i)
}

pub open spec fn vec_view<T>(v: Option<Vec<T>>) -> Option<Seq<T>> {
    match v {
        Some(x) => Some(x@),
        None => None,
    }
}

/// Every rule a chat request must meet, in the order they are checked.
pub open spec fn request_error(r: ChatRequest) -> Option<Seq<char>> {
    if byte_len(r.model@) == 0 || byte_len(r.model@) > MAX_MODEL_NAME_BYTES {
        Some("model must be between 1 and 200 characters"@)
    } else if r.messages@.len() == 0 || r.messages@.len() > MAX_MESSAGES {
        Some("messages must contain between 1 and 101 items"@)
    } else if r.functions is Some || r.function_call is Some {
        Some("legacy functions/function_call inputs are not supported; use tools"@)
    } else if r.tools is Some && (r.tools->0@.len() == 0 || r.tools->0@.len() > MAX_TOOLS) {
        Some("tools must contain between 1 and 128 items"@)
    } else if r.tools is Some && first_error(r.tools->0@.len(), tool_checks(r.tools->0@)) is Some {
        first_error(r.tools->0@.len(), tool_checks(r.tools->0@))
    } else if r.tool_choice is Some && tool_choice_error(r.tool_choice->0, vec_view(r.tools))
        is Some {
        tool_choice_error(r.tool_choice->0, vec_view(r.tools))
    } else if r.parallel_tool_calls is Some && r.tools is None {
        Some("parallel_tool_calls requires tools"@)
    } else {
        first_error(r.messages@.len(), message_checks(r.messages@))
    }
}

/// Whether a request must be sent with every field encrypted: it declares tools, names a tool
/// choice, or carries tool-related message data.
pub open spec fn needs_all_fields(r: ChatRequest) -> bool {
    r.tools is Some || (r.tool_choice is Some && r.tool_choice->0 is Named) || exists|i: int|
        0 <= i < r.messages@.len() && all_fields_data(#[trigger] r.messages@[i])
}

fn tool_name_seen(tools: &[ToolDefinition], upto: usize, name: &String) -> (r: bool)
    requires
        upto <= tools@.len(),
    ensures
        r == exists|j: int| 0 <= j < upto && (#[trigger] tools@[j]).function.name@ == name@,
{
    let mut j: usize = 0;
    while j < upto
        invariant
            upto <= tools@.len(),
            j <= upto,
            forall|k: int| 0 <= k < j ==> (#[trigger] tools@[k]).function.name@ != name@,
        decreases upto - j,
    {
        if str_eq(tools[j].function.name.as_str(), name.as_str()) {
            return true;
        }
        j = j + 1;
    }
    false
}

fn validate_tools(tools: &[ToolDefinition]) -> (r: Result<(), String>)
    ensures
        err_view(r) == first_error(tools@.len(), tool_checks(tools@)),
{
    let n = tools.len();
    let ghost checks = tool_checks(tools@);
    let mut i: usize = 0;
    while i < n
        invariant
            n == tools@.len(),
            i <= n,
            checks == tool_checks(tools@),
            first_error(i as nat, checks) is None,
        decreases n - i,
    {
        let tool = &tools[i];
        proof {
            assert(checks(i as int) == tool_error_at(tools@, i as int));
        }
        let failure: Option<String> = match tool.validate() {
            Err(e) => Some(e),
            Ok(()) => if tool_name_seen(tools, i, &tool.function.name) {
                Some(String::from_str("tool function names must be unique"))
            } else {
                None
            },
        };
        match failure {
            Some(e) => {
                proof {
                    assert(first_error((i + 1) as nat, checks) == Some(e@));
                    lemma_first_error_persists((i + 1) as nat, n as nat, checks);
                }
                return Err(e);
            },
            None => {},
        }
        i = i + 1;
    }
    Ok(())
}

fn message_failure(index: usize, error: String) -> (r: String)
    ensures
        r@ == "messages["@ + decimal(index as nat) + "]: "@ + error@,
{
    let mut out = String::from_str("messages[");
    push_decimal(&mut out, index as u64);
    out.append("]: ");
    out.append(error.as_str());
    out
}

fn validate_messages(messages: &[ChatMessage]) -> (r: Result<(), String>)
    ensures
        err_view(r) == first_error(messages@.len(), message_checks(messages@)),
{
    let n = messages.len();
    let ghost checks = message_checks(messages@);
    let mut i: usize = 0;
    while i < n
        invariant
            n == messages@.len(),
            i <= n,
            checks == message_checks(messages@),
            first_error(i as nat, checks) is None,
        decreases n - i,
    {
        proof {
            assert(checks(i as int) == message_error_at(messages@, i as int));
        }
        match messages[i].validate() {
            Err(e) => {
                let wrapped = message_failure(i, e);
                proof {
                    assert(first_error((i + 1) as nat, checks) == Some(wrapped@));
                    lemma_first_error_persists((i + 1) as nat, n as nat, checks);
                }
                return Err(wrapped);
            },
            Ok(()) => {},
        }
        i = i + 1;
    }
    Ok(())
}

impl ChatRequest {
    /// Checks a request before any attestation or encryption work: model name, message and tool
    /// counts, no legacy function members, valid tools and tool choice, then every message.
    pub fn validate(&self) -> (r: Result<(), String>)
        ensures
            err_view(r) == request_error(*self),
    {
        let model_len = utf8_len(self.model.as_str());
        if model_len == 0 || model_len > MAX_MODEL_NAME_BYTES {
            return Err(String::from_str("model must be between 1 and 200 characters"));
        }
        if self.messages.len() == 0 || self.messages.len() > MAX_MESSAGES {
            return Err(String::from_str("messages must contain between 1 and 101 items"));
        }
        if self.functions.is_some() || self.function_call.is_some() {
            return Err(
                String::from_str(
                    "legacy functions/function_call inputs are not supported; use tools",
                ),
            );
        }
        let declared: Option<&[ToolDefinition]> = match &self.tools {
            Some(tools) => Some(tools.as_slice()),
            None => None,
        };
        match declared {
            Some(tools) => {
                if tools.len() == 0 || tools.len() > MAX_TOOLS {
                    return Err(String::from_str("tools must contain between 1 and 128 items"));
                }
                validate_tools(tools)?;
            },
            None => {},
        }
        proof {
            assert(tools_view(declared) == vec_view(self.tools));
        }
        match &self.tool_choice {
            Some(choice) => {
                choice.validate(declared)?;
            },
            None => {},
        }
        if self.parallel_tool_calls.is_some() && self.tools.is_none() {
            return Err(String::from_str("parallel_tool_calls requires tools"));
        }
        validate_messages(self.messages.as_slice())
    }

    pub fn requires_all_fields_encryption(&self) -> (r: bool)
        ensures
            r == needs_all_fields(*self),
    {
        if self.tools.is_some() {
            return true;
        }
        match &self.tool_choice {
            Some(ToolChoice::Named(_)) => {
                return true;
            },
            _ => {},
        }
        let mut i: usize = 0;
        while i < self.messages.len()
            invariant
                i <= self.messages@.len(),
                self.tools is None,
                !(self.tool_choice is Some && self.tool_choice->0 is Named),
                forall|k: int| 0 <= k < i ==> !all_fields_data(#[trigger] self.messages@[k]),
            decreases self.messages@.len() - i,
        {
            if self.messages[i].has_all_fields_data() {
                return true;
            }
            i = i + 1;
        }
        false
    }
}

// ---- responses ----

#[derive(Debug)]
pub struct Usage {
    pub prompt_tokens: u32,
    pub completion_tokens: u32,
    pub total_tokens: u32,
}

#[derive(Debug)]
pub struct ChatCompletion {
    pub id: String,
    pub object: &'static str,
    pub created: u64,
    pub model: String,
    pub choices: Vec<Choice>,
    pub usage: Option<Usage>,
}

#[derive(Debug)]
pub struct Choice {
    pub index: u32,
    pub message: AssistantMessage,
    pub finish_reason: String,
}

#[derive(Debug)]
pub struct AssistantMessage {
    pub role: &'static str,
    pub content: Option<String>,
    pub reasoning_content: Option<String>,
    pub refusal: Option<String>,
    pub tool_calls: Option<Vec<ToolCall>>,
}

#[derive(Debug)]
pub struct ChatChunk {
    pub id: String,
    pub object: &'static str,
    pub created: u64,
    pub model: String,
    pub choices: Vec<ChunkChoice>,
    pub usage: Option<Usage>,
}

#[derive(Debug)]
pub struct ChunkChoice {
    pub index: u32,
    pub delta: Delta,
    pub finish_reason: Option<String>,
}

#[derive(Debug)]
pub struct Delta {
    pub role: Option<&'static str>,
    pub content: Option<String>,
    pub reasoning_content: Option<String>,
    pub refusal: Option<String>,
    pub tool_calls: Option<Vec<ToolCallDelta>>,
}

impl Default for Delta {
    fn default() -> (d: Self)
        ensures
            d.role is None,
            d.content is None,
            d.reasoning_content is None,
            d.refusal is None,
            d.tool_calls is None,
    {
        Delta { role: None, content: None, reasoning_content: None, refusal: None, tool_calls: None }
    }
}

#[derive(Debug)]
pub struct ToolCallDelta {
    pub index: u32,
    pub id: Option<String>,
    pub kind: Option<String>,
    pub function: Option<FunctionCallDelta>,
}

#[derive(Debug)]
pub struct FunctionCallDelta {
    pub name: Option<String>,
    pub arguments: Option<String>,
}

#[derive(Debug)]
pub struct ApiError {
    pub error: ApiErrorBody,
}

#[derive(Debug)]
pub struct ApiErrorBody {
    pub message: String,
    pub kind: String,
    pub code: Option<String>,
}

impl ApiError {
    /// An OpenAI-style error body of the given type, without a code.
    pub fn new(kind: &str, message: String) -> (r: Self)
        ensures
            r.error.kind@ == kind@,
            r.error.message@ == message@,
            r.error.code is None,
    {
        ApiError { error: ApiErrorBody { message, kind: String::from_str(kind), code: None } }
    }
}

#[derive(Debug)]
pub struct ModelList {
    pub object: &'static str,
    pub data: Vec<ModelEntry>,
}

#[derive(Debug)]
pub struct ModelEntry {
    pub id: String,
    pub object: &'static str,
    pub owned_by: &'static str,
    pub supported_reasoning_efforts: Vec<String>,
}

/// Which requests are sent with every field encrypted: any request with a message that has the
/// tool role, a tool call id, a name, a refusal or tool calls (each of these alone suffices), or
/// that declares tools or names a tool choice; a request with none of these is not.
pub proof fn law_all_fields_encryption_triggers(r: ChatRequest, i: int)
    requires
        0 <= i < r.messages@.len(),
    ensures
        r.messages@[i].name is Some ==> needs_all_fields(r),
        r.messages@[i].tool_call_id is Some ==> needs_all_fields(r),
        r.messages@[i].refusal is Some ==> needs_all_fields(r),
        r.messages@[i].tool_calls is Some ==> needs_all_fields(r),
        r.messages@[i].role == MessageRole::Tool ==> needs_all_fields(r),
        r.tools is Some ==> needs_all_fields(r),
        (r.tool_choice matches Some(c) && c is Named) ==> needs_all_fields(r),
        (r.tools is None && !(r.tool_choice matches Some(c) && c is Named) && forall|k: int|
            0 <= k < r.messages@.len() ==> {
                let m = #[trigger] r.messages@[k];
                &&& m.role != MessageRole::Tool
                &&& m.tool_call_id is None
                &&& m.name is None
                &&& m.refusal is None
                &&& m.tool_calls is None
            }) ==> !needs_all_fields(r),
{
    let m = r.messages@[i];
    if m.name is Some || m.tool_call_id is Some || m.refusal is Some || m.tool_calls is Some || m.role
        == MessageRole::Tool {
        assert(all_fields_data(r.messages@[i]));
    }
}

} // verus!
