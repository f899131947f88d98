//! The Axiom backend relay (`/relay/*`): the wire types of encrypted requests and responses, the
//! event vocabulary of relay streams, and the relay's URLs.
//!
//! JSON-valued request members (`sampling`, `response_format`) are carried as compact JSON text.

use vstd::prelude::*;

use crate::error::CoreError;
use crate::text::{concat2, concat3, str_eq, trim_end_char, trim_end_char_str};

use crate::value::JsonValue;

verus! {

/// The provider a relay model belongs to when the backend does not say.
pub fn default_provider() -> (r: String)
    ensures
        r@ == "near"@,
{
    String::from_str("near")
}

/// A model of the relay catalog, with the provider contract it is served under.
#[derive(Debug)]
pub struct RelayModel {
    pub id: String,
    pub label: String,
    pub short_label: String,
    pub model: String,
    pub base_url: String,
    pub provider: String,
    pub supported_reasoning_efforts: Vec<String>,
    pub e2ee_protocol: String,
    pub e2ee_encryption_version: u8,
    pub attestation_protocol: String,
}

#[derive(Debug)]
pub struct RelayMessage {
    pub role: String,
    pub encrypted_content: Option<String>,
    pub encrypted_reasoning_content: Option<String>,
    pub encrypted_name: Option<String>,
    pub encrypted_refusal: Option<String>,
    pub encrypted_tool_calls: Option<Vec<RelayEncryptedToolCall>>,
    pub tool_call_id: Option<String>,
}

#[derive(Debug)]
pub struct RelayEncryptedTool {
    pub kind: String,
    pub function: RelayEncryptedFunctionDefinition,
}

#[derive(Debug)]
pub struct RelayEncryptedFunctionDefinition {
    pub encrypted_name: String,
    pub encrypted_description: Option<String>,
    pub encrypted_parameters: String,
    pub strict: Option<bool>,
}

#[derive(Debug)]
pub enum RelayEncryptedToolChoice {
    Mode(String),
    Named(RelayEncryptedNamedToolChoice),
}

#[derive(Debug)]
pub struct RelayEncryptedNamedToolChoice {
    pub kind: String,
    pub function: RelayEncryptedNamedFunction,
}

#[derive(Debug)]
pub struct RelayEncryptedNamedFunction {
    pub encrypted_name: String,
}

#[derive(Debug)]
pub struct RelayEncryptedToolCall {
    pub id: String,
    pub kind: String,
    pub function: RelayEncryptedFunctionCall,
}

#[derive(Debug)]
pub struct RelayEncryptedFunctionCall {
    pub encrypted_name: String,
    pub encrypted_arguments: String,
}

#[derive(Debug)]
pub struct RelayEncryptedToolCallDelta {
    pub index: u32,
    pub id: Option<String>,
    pub kind: Option<String>,
    pub function: Option<RelayEncryptedFunctionCallDelta>,
}

#[derive(Debug)]
pub struct RelayEncryptedFunctionCallDelta {
    pub encrypted_name: Option<String>,
    pub encrypted_arguments: Option<String>,
}

#[derive(Debug)]
pub struct RelayChatRequest {
    pub model_id: String,
    pub encryption_version: u8,
    pub e2ee_protocol: Option<String>,
    pub client_public_key_hex: Option<String>,
    pub model_public_key_hex: Option<String>,
    pub encrypted_messages: Vec<RelayMessage>,
    pub encrypt_all_fields: bool,
    pub encrypted_tools: Option<Vec<RelayEncryptedTool>>,
    pub encrypted_tool_choice: Option<RelayEncryptedToolChoice>,
    pub parallel_tool_calls: Option<bool>,
    pub stream: bool,
    pub max_tokens: Option<u32>,
    pub sampling: Option<String>,
    pub response_format: Option<String>,
    pub reasoning_effort: Option<String>,
}

#[derive(Debug)]
pub struct RelayUsage {
    pub prompt_tokens: Option<u32>,
    pub completion_tokens: Option<u32>,
    pub total_tokens: Option<u32>,
}

impl Default for RelayUsage {
    fn default() -> (r: Self)
        ensures
            r.prompt_tokens is None,
            r.completion_tokens is None,
            r.total_tokens is None,
    {
        RelayUsage { prompt_tokens: None, completion_tokens: None, total_tokens: None }
    }
}

/// One event of a relay stream, mapped off the wire vocabulary.
#[derive(Debug)]
pub enum RelayEvent {
    Delta {
        content: Option<String>,
        reasoning: Option<String>,
        refusal: Option<String>,
        tool_calls: Vec<RelayEncryptedToolCallDelta>,
        sequence: u64,
    },
    Completed { usage: RelayUsage, finish_reason: Option<String> },
    Cancelled { reason: Option<String> },
    Failed { error: String },
}

#[derive(Debug)]
pub struct RelayCompletion {
    pub id: String,
    pub model: Option<String>,
    pub encrypted_content: Option<String>,
    pub encrypted_reasoning_content: Option<String>,
    pub encrypted_refusal: Option<String>,
    pub encrypted_tool_calls: Vec<RelayEncryptedToolCall>,
    pub finish_reason: Option<String>,
    pub usage: RelayUsage,
    /// The provider's proof for receipt-gated decryption, when it sends one.
    pub proof: Option<JsonValue>,
}

/// What a relay SSE event name announces.
#[derive(Clone, Copy, Debug, PartialEq, Eq, Structural)]
pub enum RelayEventKind {
    Delta,
    Completed,
    Cancelled,
    Failed,
    /// Run bookkeeping that carries nothing for the client.
    Ignored,
}

pub open spec fn event_kind_of(name: Seq<char>) -> Option<RelayEventKind> {
    if name == "message.encrypted_delta"@ {
        Some(RelayEventKind::Delta)
    } else if name == "message.encrypted_completed"@ {
        Some(RelayEventKind::Completed)
    } else if name == "run.created"@ || name == "run.completed"@ {
        Some(RelayEventKind::Ignored)
    } else if name == "run.cancelled"@ {
        Some(RelayEventKind::Cancelled)
    } else if name == "run.failed"@ {
        Some(RelayEventKind::Failed)
    } else {
        None
    }
}

/// Classifies a relay SSE event name; any name outside the vocabulary fails the stream.
pub fn classify_event(name: &str) -> (r: Result<RelayEventKind, CoreError>)
    ensures
        event_kind_of(name@) matches Some(k) ==> r == Ok::<RelayEventKind, CoreError>(k),
        event_kind_of(name@) is None ==> (r matches Err(CoreError::Relay(m)) && m@
            == "unexpected relay event: "@ + name@),
{
    if str_eq(name, "message.encrypted_delta") {
        Ok(RelayEventKind::Delta)
    } else if str_eq(name, "message.encrypted_completed") {
        Ok(RelayEventKind::Completed)
    } else if str_eq(name, "run.created") || str_eq(name, "run.completed") {
        Ok(RelayEventKind::Ignored)
    } else if str_eq(name, "run.cancelled") {
        Ok(RelayEventKind::Cancelled)
    } else if str_eq(name, "run.failed") {
        Ok(RelayEventKind::Failed)
    } else {
        Err(CoreError::Relay(concat2("unexpected relay event: ", name)))
    }
}

pub open spec fn parse_failure_prefix(kind: RelayEventKind) -> Seq<char> {
    match kind {
        RelayEventKind::Delta => "invalid encrypted delta event: "@,
        RelayEventKind::Completed => "invalid encrypted completed event: "@,
        RelayEventKind::Cancelled => "invalid cancelled event: "@,
        RelayEventKind::Failed => "invalid failed event: "@,
        RelayEventKind::Ignored => "invalid relay event: "@,
    }
}

/// The error for an event whose payload does not parse, carrying the parser's message.
pub fn event_parse_error(kind: RelayEventKind, detail: &str) -> (r: CoreError)
    ensures
        r matches CoreError::Relay(m) && m@ == parse_failure_prefix(kind) + detail@,
{
    let prefix = match kind {
        RelayEventKind::Delta => "invalid encrypted delta event: ",
        RelayEventKind::Completed => "invalid encrypted completed event: ",
        RelayEventKind::Cancelled => "invalid cancelled event: ",
        RelayEventKind::Failed => "invalid failed event: ",
        RelayEventKind::Ignored => "invalid relay event: ",
    };
    CoreError::Relay(concat2(prefix, detail))
}

/// The relay base URL: the configured backend URL without trailing slashes.
pub fn relay_base_url(base_url: &str) -> (r: String)
    ensures
        r@ == trim_end_char(base_url@, '/'),
{
    String::from_str(trim_end_char_str(base_url, '/'))
}

/// The URL of a relay API path.
pub fn relay_url(base_url: &str, path: &str) -> (r: String)
    ensures
        r@ == base_url@ + "/api/v1"@ + path@,
{
    concat3(base_url, "/api/v1", path)
}

/// The error for a relay response with a failure status.
pub fn relay_status_error(status: &str, body: &str) -> (r: CoreError)
    ensures
        r matches CoreError::Relay(m) && m@ == status@ + ": "@ + body@,
{
    CoreError::Relay(concat3(status, ": ", body))
}

} // verus!
