//! The decisions of the OpenAI-compatible `/v1` handlers: error mapping, assembling the encrypted
//! relay request, the security receipt of a request, and the decrypted non-streaming response.
//!
//! Every plaintext field a request carries is sealed to the attested model key before it leaves
//! the process; a provider response is returned only when every encrypted field decrypts.

use vstd::prelude::*;

use crate::audit::{terminal_step, RequestAudit, RequestSecurityReceipt};
use crate::crypto::{aead_max_plaintext, edwards_point_valid, edwards_to_montgomery, sha256, sha256_bytes};
use crate::e2ee::{hex_body, opened, seals};
use crate::error::{error_text, CoreError};
use crate::events::{E2eeAuditReceipt, RequestLogEntry, RequestTerminalStatus, TeeAuditReceipt};
use crate::hex::{decode_hex, encode_hex, hex_decode, hex_encode};
use crate::near::NearSession;
use crate::openai::{
    effort_name, is_finish_reason, message_text, needs_all_fields, opt_view, request_error,
    role_name, tool_calls_error, validate_finish_reason, validate_tool_calls, AssistantMessage,
    ChatCompletion, ChatMessage, ChatRequest, Choice, FunctionCall, ToolCall, ToolChoice,
    ModelEntry, ModelList, ToolDefinition, Usage, MAX_RELAY_REQUEST_BYTES,
};
use crate::provider::{contract_matches, engine_index, ProviderEngine, ProviderRegistry, VerifiedModel};
use crate::relay::{
    RelayChatRequest, RelayCompletion, RelayEncryptedFunctionCall,
    RelayEncryptedFunctionDefinition, RelayEncryptedNamedFunction, RelayEncryptedNamedToolChoice,
    RelayEncryptedTool, RelayEncryptedToolCall, RelayEncryptedToolChoice, RelayMessage, RelayModel,
};
use crate::sse::decrypted_text;
use crate::text::{byte_len, concat2, contains, contains_seq, str_eq, string_from_utf8};

verus! {

/// A handler failure: the HTTP status, the OpenAI error type and the message.
#[derive(Debug)]
pub struct AppError {
    pub status: u16,
    pub kind: String,
    pub message: String,
}

impl AppError {
    pub fn new(status: u16, kind: &str, message: String) -> (r: Self)
        ensures
            r.status == status,
            r.kind@ == kind@,
            r.message@ == message@,
    {
        AppError { status, kind: String::from_str(kind), message }
    }

    pub fn kind(&self) -> (r: &str)
        ensures
            r@ == self.kind@,
    {
        self.kind.as_str()
    }
}

pub open spec fn app_error(e: AppError, status: u16, kind: Seq<char>, message: Seq<char>) -> bool {
    e.status == status && e.kind@ == kind && e.message@ == message
}

/// The configured API key, or 401 when there is none.
pub fn require_key(api_key: Option<String>) -> (r: Result<String, AppError>)
    ensures
        api_key matches Some(k) ==> (r matches Ok(v) && v == k),
        api_key is None ==> (r matches Err(e) && app_error(
            e,
            401,
            "authentication_error"@,
            "no API key configured in the proxy"@,
        )),
{
    match api_key {
        Some(k) => Ok(k),
        None => Err(
            AppError::new(
                401,
                "authentication_error",
                String::from_str("no API key configured in the proxy"),
            ),
        ),
    }
}

/// Maps a relay failure to an HTTP error: the backend's 402 (insufficient credit) is surfaced as
/// such so tools can tell "top up" from a real failure; anything else is a 502.
pub fn relay_error(e: CoreError) -> (r: AppError)
    ensures
        contains_seq(error_text(e), "402"@) ==> app_error(
            r,
            402,
            "insufficient_credit"@,
            "out of credit \u{2014} top up your Axiom balance"@,
        ),
        !contains_seq(error_text(e), "402"@) ==> app_error(r, 502, "upstream_error"@, error_text(e)),
{
    let message = e.message();
    if contains(message.as_str(), "402") {
        AppError::new(
            402,
            "insufficient_credit",
            String::from_str("out of credit \u{2014} top up your Axiom balance"),
        )
    } else {
        AppError::new(502, "upstream_error", message)
    }
}

/// The 400 for a request that fails validation.
pub fn validate_request(req: &ChatRequest) -> (r: Result<(), AppError>)
    ensures
        request_error(*req) is None <==> r is Ok,
        request_error(*req) matches Some(m) ==> (r matches Err(e) && app_error(
            e,
            400,
            "invalid_request_error"@,
            m,
        )),
{
    match req.validate() {
        Ok(()) => Ok(()),
        Err(message) => Err(AppError::new(400, "invalid_request_error", message)),
    }
}

/// The 404 for a model the catalog does not know.
pub fn model_not_found(requested: &str) -> (r: AppError)
    ensures
        app_error(r, 404, "model_not_found"@, "unknown model: "@ + requested@),
{
    AppError::new(404, "model_not_found", concat2("unknown model: ", requested))
}

/// The requested reasoning effort, which the model must list as supported.
/// The first decisions on a request, taken before any model is resolved, attested or encrypted
/// to: a proxy without an API key answers 401 whatever the request is; then an invalid request
/// answers 400. Returns the key otherwise.
pub fn admit_request(api_key: Option<String>, req: &ChatRequest) -> (r: Result<String, AppError>)
    ensures
        api_key is None ==> (r matches Err(e) && app_error(
            e,
            401,
            "authentication_error"@,
            "no API key configured in the proxy"@,
        )),
        api_key matches Some(k) ==> match request_error(*req) {
            Some(m) => r matches Err(e) && app_error(e, 400, "invalid_request_error"@, m),
            None => r matches Ok(v) && v == k,
        },
{
    let key = match require_key(api_key) {
        Ok(k) => k,
        Err(e) => return Err(e),
    };
    match validate_request(req) {
        Ok(()) => Ok(key),
        Err(e) => Err(e),
    }
}

/// Whether the request's reasoning effort, if any, is one the model advertises.
pub open spec fn effort_supported(req: ChatRequest, model: RelayModel) -> bool {
    req.reasoning_effort matches Some(effort) ==> exists|i: int|
        0 <= i < model.supported_reasoning_efforts@.len()
            && (#[trigger] model.supported_reasoning_efforts@[i])@ == effort_name(effort)
}

/// The decisions on a resolved model taken before it is attested: its provider engine (a 502
/// `provider_error` when the provider is unknown or names other protocols), then the reasoning
/// effort (a 400 when the model does not advertise it). Returns the engine and the effort to relay.
pub fn engine_and_effort<'a>(registry: &'a ProviderRegistry, req: &ChatRequest, model: &RelayModel) -> (r: Result<
    (&'a ProviderEngine, Option<String>),
    AppError,
>)
    ensures
        engine_index(registry.engines(), model.provider@) is None ==> (r matches Err(e) && app_error(
            e,
            502,
            "provider_error"@,
            "provider error: "@ + ("unknown provider: "@ + model.provider@),
        )),
        engine_index(registry.engines(), model.provider@) matches Some(i) && !contract_matches(
            *model,
            registry.engines()[i],
        ) ==> (r matches Err(e) && app_error(
            e,
            502,
            "provider_error"@,
            "provider error: "@ + ("provider contract mismatch for model "@ + model.id@),
        )),
        engine_index(registry.engines(), model.provider@) matches Some(i) && contract_matches(
            *model,
            registry.engines()[i],
        ) ==> if effort_supported(*req, *model) {
            r matches Ok((engine, effort)) && *engine == registry.engines()[engine_index(
                registry.engines(),
                model.provider@,
            )->0] && match req.reasoning_effort {
                Some(x) => opt_view(effort) == Some(effort_name(x)),
                None => effort is None,
            }
        } else {
            r matches Err(e) && app_error(
                e,
                400,
                "invalid_request_error"@,
                "reasoning_effort is not supported for model "@ + model.id@,
            )
        },
{
    let engine = match registry.for_model(model) {
        Ok(engine) => engine,
        Err(error) => return Err(AppError::new(502, "provider_error", error.message())),
    };
    match check_reasoning_effort(req, model) {
        Ok(effort) => Ok((engine, effort)),
        Err(e) => Err(e),
    }
}

pub fn check_reasoning_effort(req: &ChatRequest, model: &RelayModel) -> (r: Result<
    Option<String>,
    AppError,
>)
    ensures
        req.reasoning_effort is None ==> (r matches Ok(v) && v is None),
        req.reasoning_effort matches Some(effort) ==> if exists|i: int|
            0 <= i < model.supported_reasoning_efforts@.len()
                && (#[trigger] model.supported_reasoning_efforts@[i])@ == effort_name(effort) {
            r matches Ok(v) && opt_view(v) == Some(effort_name(effort))
        } else {
            r matches Err(e) && app_error(
                e,
                400,
                "invalid_request_error"@,
                "reasoning_effort is not supported for model "@ + model.id@,
            )
        },
{
    match req.reasoning_effort {
        None => Ok(None),
        Some(effort) => {
            let name = effort.as_str();
            let mut i: usize = 0;
            while i < model.supported_reasoning_efforts.len()
                invariant
                    i <= model.supported_reasoning_efforts@.len(),
                    req.reasoning_effort == Some(effort),
                    name@ == effort_name(effort),
                    forall|k: int|
                        0 <= k < i ==> (#[trigger] model.supported_reasoning_efforts@[k])@ != name@,
                decreases model.supported_reasoning_efforts@.len() - i,
            {
                if str_eq(model.supported_reasoning_efforts[i].as_str(), name) {
                    return Ok(Some(String::from_str(name)));
                }
                i = i + 1;
            }
            Err(
                AppError::new(
                    400,
                    "invalid_request_error",
                    concat2("reasoning_effort is not supported for model ", model.id.as_str()),
                ),
            )
        },
    }
}

// ---- sealing the request ----

/// `wire` seals the UTF-8 of `text` to the X25519 key `x`.
pub open spec fn seals_text(x: Seq<u8>, wire: Seq<char>, text: Seq<char>) -> bool {
    seals(x, wire, vstd::utf8::encode_utf8(text))
}

pub open spec fn sealed_opt(x: Seq<u8>, wire: Option<String>, text: Option<Seq<char>>) -> bool {
    match text {
        Some(t) => wire matches Some(w) && seals_text(x, w@, t),
        None => wire is None,
    }
}

pub open spec fn small(t: Seq<char>) -> bool {
    byte_len(t) < aead_max_plaintext()
}

pub open spec fn small_opt(t: Option<String>) -> bool {
    t matches Some(v) ==> small(v@)
}

pub open spec fn call_sealed(x: Seq<u8>, c: ToolCall, e: RelayEncryptedToolCall) -> bool {
    &&& e.id@ == c.id@
    &&& e.kind@ == c.kind@
    &&& seals_text(x, e.function.encrypted_name@, c.function.name@)
    &&& seals_text(x, e.function.encrypted_arguments@, c.function.arguments@)
}

pub open spec fn calls_sealed(x: Seq<u8>, calls: Option<Vec<ToolCall>>, sealed: Option<
    Vec<RelayEncryptedToolCall>,
>) -> bool {
    match calls {
        Some(cs) => sealed matches Some(es) && es@.len() == cs@.len() && forall|i: int|
            0 <= i < cs@.len() ==> call_sealed(x, #[trigger] cs@[i], es@[i]),
        None => sealed is None,
    }
}

/// The relay form of a message: its role, and every text member sealed to `x`.
pub open spec fn message_sealed(x: Seq<u8>, m: ChatMessage, e: RelayMessage) -> bool {
    &&& e.role@ == role_name(m.role)
    &&& message_text(m) matches Ok(t) && sealed_opt(x, e.encrypted_content, t)
    &&& sealed_opt(x, e.encrypted_reasoning_content, opt_view(m.reasoning_content))
    &&& sealed_opt(x, e.encrypted_name, opt_view(m.name))
    &&& sealed_opt(x, e.encrypted_refusal, opt_view(m.refusal))
    &&& calls_sealed(x, m.tool_calls, e.encrypted_tool_calls)
    &&& opt_view(e.tool_call_id) == opt_view(m.tool_call_id)
}

pub open spec fn message_fits(m: ChatMessage) -> bool {
    &&& message_text(m) matches Ok(t) ==> (t matches Some(v) ==> small(v))
    &&& small_opt(m.reasoning_content)
    &&& small_opt(m.name)
    &&& small_opt(m.refusal)
    &&& m.tool_calls matches Some(cs) ==> forall|i: int|
        0 <= i < cs@.len() ==> small((#[trigger] cs@[i]).function.name@) && small(
            cs@[i].function.arguments@,
        )
}

pub open spec fn tool_sealed(x: Seq<u8>, t: ToolDefinition, e: RelayEncryptedTool) -> bool {
    &&& e.kind@ == t.kind@
    &&& seals_text(x, e.function.encrypted_name@, t.function.name@)
    &&& sealed_opt(x, e.function.encrypted_description, opt_view(t.function.description))
    &&& seals_text(x, e.function.encrypted_parameters@, t.function.parameters@)
    &&& e.function.strict == t.function.strict
}

pub open spec fn tool_fits(t: ToolDefinition) -> bool {
    small(t.function.name@) && small_opt(t.function.description) && small(t.function.parameters@)
}

pub open spec fn choice_sealed(x: Seq<u8>, c: ToolChoice, e: RelayEncryptedToolChoice) -> bool {
    match c {
        ToolChoice::Mode(m) => e matches RelayEncryptedToolChoice::Mode(em) && em@ == m@,
        ToolChoice::Named(n) => e matches RelayEncryptedToolChoice::Named(en) && en.kind@ == n.kind@
            && seals_text(x, en.function.encrypted_name@, n.function.name@),
    }
}

/// Every plaintext of the request is small enough to seal.
pub open spec fn request_fits(req: ChatRequest) -> bool {
    &&& forall|i: int| 0 <= i < req.messages@.len() ==> message_fits(#[trigger] req.messages@[i])
    &&& req.tools matches Some(ts) ==> forall|j: int|
        0 <= j < ts@.len() ==> tool_fits(#[trigger] ts@[j])
    &&& req.tool_choice matches Some(ToolChoice::Named(n)) ==> small(n.function.name@)
}

/// Every message's text flattens.
pub open spec fn texts_flatten(req: ChatRequest) -> bool {
    forall|i: int| 0 <= i < req.messages@.len() ==> message_text(#[trigger] req.messages@[i]) is Ok
}

/// The relay request for `req`: every text sealed to the attested key `x`, the routing and
/// protocol members copied.
pub open spec fn relay_request_for(
    req: ChatRequest,
    model: RelayModel,
    engine: ProviderEngine,
    verified: VerifiedModel,
    client_public_hex: Seq<char>,
    sampling: Option<Seq<char>>,
    reasoning_effort: Option<Seq<char>>,
    x: Seq<u8>,
    r: RelayChatRequest,
) -> bool {
    &&& r.model_id@ == model.id@
    &&& r.encryption_version == engine.encryption_version
    &&& opt_view(r.e2ee_protocol) == Some(engine.e2ee_protocol@)
    &&& opt_view(r.client_public_key_hex) == Some(client_public_hex)
    &&& opt_view(r.model_public_key_hex) == Some(verified.model_public_key_hex@)
    &&& r.encrypted_messages@.len() == req.messages@.len()
    &&& forall|i: int|
        0 <= i < req.messages@.len() ==> message_sealed(
            x,
            #[trigger] req.messages@[i],
            r.encrypted_messages@[i],
        )
    &&& r.encrypt_all_fields == needs_all_fields(req)
    &&& match req.tools {
        Some(ts) => r.encrypted_tools matches Some(es) && es@.len() == ts@.len() && forall|j: int|
            0 <= j < ts@.len() ==> tool_sealed(x, #[trigger] ts@[j], es@[j]),
        None => r.encrypted_tools is None,
    }
    &&& match req.tool_choice {
        Some(c) => r.encrypted_tool_choice matches Some(ec) && choice_sealed(x, c, ec),
        None => r.encrypted_tool_choice is None,
    }
    &&& r.parallel_tool_calls == req.parallel_tool_calls
    &&& r.stream == req.stream
    &&& r.max_tokens == req.max_tokens
    &&& opt_view(r.sampling) == sampling
    &&& opt_view(r.response_format) == opt_view(req.response_format)
    &&& opt_view(r.reasoning_effort) == reasoning_effort
}

/// The 500 for a field that could not be sealed.
pub open spec fn encryption_failure(e: AppError) -> bool {
    app_error(e, 500, "encryption_error"@, "failed to encrypt provider field"@)
}

/// Seals one text to the session's model key.
fn encrypt_text(session: &mut NearSession, value: &str) -> (r: Result<String, AppError>)
    ensures
        *final(session) == *old(session),
        r matches Ok(w) ==> seals_text(edwards_to_montgomery(old(session).model_pub@), w@, value@),
        r matches Err(e) ==> encryption_failure(e),
        small(value@) && edwards_point_valid(old(session).model_pub@) ==> r is Ok,
{
    match session.encrypt(value.as_bytes()) {
        Ok(w) => Ok(w),
        Err(_) => Err(
            AppError::new(500, "encryption_error", String::from_str("failed to encrypt provider field")),
        ),
    }
}

fn encrypt_optional(session: &mut NearSession, value: &Option<String>) -> (r: Result<
    Option<String>,
    AppError,
>)
    ensures
        *final(session) == *old(session),
        r matches Ok(w) ==> sealed_opt(
            edwards_to_montgomery(old(session).model_pub@),
            w,
            opt_view(*value),
        ),
        r matches Err(e) ==> encryption_failure(e),
        small_opt(*value) && edwards_point_valid(old(session).model_pub@) ==> r is Ok,
{
    match value {
        Some(v) => {
            let w = encrypt_text(session, v.as_str())?;
            Ok(Some(w))
        },
        None => Ok(None),
    }
}

fn encrypt_tool_calls(session: &mut NearSession, calls: &Vec<ToolCall>) -> (r: Result<
    Vec<RelayEncryptedToolCall>,
    AppError,
>)
    ensures
        *final(session) == *old(session),
        r matches Ok(es) ==> es@.len() == calls@.len() && forall|i: int|
            0 <= i < calls@.len() ==> call_sealed(
                edwards_to_montgomery(old(session).model_pub@),
                #[trigger] calls@[i],
                es@[i],
            ),
        r matches Err(e) ==> encryption_failure(e),
        (forall|i: int|
            0 <= i < calls@.len() ==> small((#[trigger] calls@[i]).function.name@) && small(
                calls@[i].function.arguments@,
            )) && edwards_point_valid(old(session).model_pub@) ==> r is Ok,
{
    let ghost s0 = *session;
    let mut out: Vec<RelayEncryptedToolCall> = Vec::new();
    let mut i: usize = 0;
    while i < calls.len()
        invariant
            *session == s0,
            s0 == *old(session),
            i <= calls@.len(),
            out@.len() == i,
            forall|k: int|
                0 <= k < i ==> call_sealed(
                    edwards_to_montgomery(s0.model_pub@),
                    #[trigger] calls@[k],
                    out@[k],
                ),
        decreases calls@.len() - i,
    {
        let call = &calls[i];
        let encrypted_name = encrypt_text(session, call.function.name.as_str())?;
        let encrypted_arguments = encrypt_text(session, call.function.arguments.as_str())?;
        out.push(
            RelayEncryptedToolCall {
                id: call.id.clone(),
                kind: call.kind.clone(),
                function: RelayEncryptedFunctionCall { encrypted_name, encrypted_arguments },
            },
        );
        i = i + 1;
    }
    Ok(out)
}

fn encrypt_message(session: &mut NearSession, message: &ChatMessage) -> (r: Result<
    RelayMessage,
    AppError,
>)
    ensures
        *final(session) == *old(session),
        r matches Ok(e) ==> message_sealed(
            edwards_to_montgomery(old(session).model_pub@),
            *message,
            e,
        ),
        r matches Err(e) ==> encryption_failure(e) || (message_text(*message) matches Err(m)
            && app_error(e, 400, "invalid_request_error"@, m)),
        message_text(*message) is Ok && message_fits(*message) && edwards_point_valid(
            old(session).model_pub@,
        ) ==> r is Ok,
{
    let text = match message.content_text() {
        Ok(t) => t,
        Err(m) => {
            return Err(AppError::new(400, "invalid_request_error", m));
        },
    };
    let encrypted_content = encrypt_optional(session, &text)?;
    let encrypted_reasoning_content = encrypt_optional(session, &message.reasoning_content)?;
    let encrypted_name = encrypt_optional(session, &message.name)?;
    let encrypted_refusal = encrypt_optional(session, &message.refusal)?;
    let encrypted_tool_calls = match &message.tool_calls {
        Some(calls) => Some(encrypt_tool_calls(session, calls)?),
        None => None,
    };
    Ok(
        RelayMessage {
            role: String::from_str(message.role.as_str()),
            encrypted_content,
            encrypted_reasoning_content,
            encrypted_name,
            encrypted_refusal,
            encrypted_tool_calls,
            tool_call_id: crate::history::clone_optional(&message.tool_call_id),
        },
    )
}

fn encrypt_tool(session: &mut NearSession, tool: &ToolDefinition) -> (r: Result<
    RelayEncryptedTool,
    AppError,
>)
    ensures
        *final(session) == *old(session),
        r matches Ok(e) ==> tool_sealed(edwards_to_montgomery(old(session).model_pub@), *tool, e),
        r matches Err(e) ==> encryption_failure(e),
        tool_fits(*tool) && edwards_point_valid(old(session).model_pub@) ==> r is Ok,
{
    let encrypted_name = encrypt_text(session, tool.function.name.as_str())?;
    let encrypted_description = encrypt_optional(session, &tool.function.description)?;
    let encrypted_parameters = encrypt_text(session, tool.function.parameters.as_str())?;
    Ok(
        RelayEncryptedTool {
            kind: tool.kind.clone(),
            function: RelayEncryptedFunctionDefinition {
                encrypted_name,
                encrypted_description,
                encrypted_parameters,
                strict: tool.function.strict,
            },
        },
    )
}

/// Assembles the relay request for a checked chat request: every text member of every message,
/// every declared tool and a named tool choice is sealed to the attested model key, and the
/// protocol, routing and option members are copied. `sampling` is the request's sampling options
/// as JSON text; `reasoning_effort` is the checked effort.
///
/// A request that passed validation, sent to a key that is a curve point, always assembles. The
/// session is a NEAR v2 session, so the engine is one whose cipher is NEAR v2.
pub fn prepare_relay_request(
    req: &ChatRequest,
    model: &RelayModel,
    engine: &ProviderEngine,
    verified: &VerifiedModel,
    session: &mut NearSession,
    sampling: Option<String>,
    reasoning_effort: Option<String>,
) -> (r: Result<RelayChatRequest, AppError>)
    requires
        engine.e2ee_protocol@ == "near-v2"@,
        engine.encryption_version == 2,
    ensures
        *final(session) == *old(session),
        r matches Ok(rr) ==> relay_request_for(
            *req,
            *model,
            *engine,
            *verified,
            old(session).keypair.public_hex@,
            opt_view(sampling),
            opt_view(reasoning_effort),
            edwards_to_montgomery(old(session).model_pub@),
            rr,
        ),
        r matches Err(e) ==> encryption_failure(e) || (e.status == 400 && e.kind@
            == "invalid_request_error"@ && !texts_flatten(*req)),
        texts_flatten(*req) && request_fits(*req) && edwards_point_valid(old(session).model_pub@)
            ==> r is Ok,
        request_error(*req) is None && edwards_point_valid(old(session).model_pub@) ==> r is Ok,
{
    proof {
        if request_error(*req) is None {
            lemma_valid_request_fits(*req);
        }
    }
    let ghost s0 = *session;
    let ghost x = edwards_to_montgomery(s0.model_pub@);
    let mut encrypted_messages: Vec<RelayMessage> = Vec::new();
    let mut i: usize = 0;
    while i < req.messages.len()
        invariant
            *session == s0,
            s0 == *old(session),
            x == edwards_to_montgomery(s0.model_pub@),
            i <= req.messages@.len(),
            request_error(*req) is None ==> texts_flatten(*req) && request_fits(*req),
            encrypted_messages@.len() == i,
            forall|k: int|
                0 <= k < i ==> message_sealed(x, #[trigger] req.messages@[k], encrypted_messages@[k]),
        decreases req.messages@.len() - i,
    {
        let m = encrypt_message(session, &req.messages[i]);
        match m {
            Ok(e) => {
                encrypted_messages.push(e);
            },
            Err(e) => {
                proof {
                    if !encryption_failure(e) {
                        assert(message_text(req.messages@[i as int]) is Err);
                    }
                }
                return Err(e);
            },
        }
        i = i + 1;
    }
    let encrypted_tools = match &req.tools {
        Some(tools) => {
            let mut out: Vec<RelayEncryptedTool> = Vec::new();
            let mut j: usize = 0;
            while j < tools.len()
                invariant
                    *session == s0,
                    s0 == *old(session),
                    x == edwards_to_montgomery(s0.model_pub@),
                    j <= tools@.len(),
                    req.tools matches Some(ts) && ts@ == tools@,
                    request_error(*req) is None ==> texts_flatten(*req) && request_fits(*req),
                    out@.len() == j,
                    forall|k: int| 0 <= k < j ==> tool_sealed(x, #[trigger] tools@[k], out@[k]),
                decreases tools@.len() - j,
            {
                let t = encrypt_tool(session, &tools[j])?;
                out.push(t);
                j = j + 1;
            }
            Some(out)
        },
        None => None,
    };
    let encrypted_tool_choice = match &req.tool_choice {
        Some(ToolChoice::Mode(mode)) => Some(RelayEncryptedToolChoice::Mode(mode.clone())),
        Some(ToolChoice::Named(named)) => {
            let encrypted_name = encrypt_text(session, named.function.name.as_str())?;
            Some(
                RelayEncryptedToolChoice::Named(
                    RelayEncryptedNamedToolChoice {
                        kind: named.kind.clone(),
                        function: RelayEncryptedNamedFunction { encrypted_name },
                    },
                ),
            )
        },
        None => None,
    };
    Ok(
        RelayChatRequest {
            model_id: model.id.clone(),
            encryption_version: engine.encryption_version,
            e2ee_protocol: Some(engine.e2ee_protocol.clone()),
            client_public_key_hex: session.client_public_key_hex(),
            model_public_key_hex: Some(verified.model_public_key_hex.clone()),
            encrypted_messages,
            encrypt_all_fields: req.requires_all_fields_encryption(),
            encrypted_tools,
            encrypted_tool_choice,
            parallel_tool_calls: req.parallel_tool_calls,
            stream: req.stream,
            max_tokens: req.max_tokens,
            sampling,
            response_format: crate::history::clone_optional(&req.response_format),
            reasoning_effort,
        },
    )
}

/// The `/v1/models` answer for a catalog: each model by id, in catalog order, owned by `axiom`,
/// with its reasoning efforts.
pub fn model_list(models: &Vec<RelayModel>) -> (r: ModelList)
    ensures
        r.object@ == "list"@,
        r.data@.len() == models@.len(),
        forall|i: int|
            #![trigger r.data@[i]]
            0 <= i < models@.len() ==> {
                &&& r.data@[i].id@ == models@[i].id@
                &&& r.data@[i].object@ == "model"@
                &&& r.data@[i].owned_by@ == "axiom"@
                &&& r.data@[i].supported_reasoning_efforts@.len()
                    == models@[i].supported_reasoning_efforts@.len()
                &&& forall|k: int|
                    0 <= k < models@[i].supported_reasoning_efforts@.len() ==> (
                    #[trigger] r.data@[i].supported_reasoning_efforts@[k])@
                        == models@[i].supported_reasoning_efforts@[k]@
            },
{
    let mut data: Vec<ModelEntry> = Vec::new();
    let mut i: usize = 0;
    while i < models.len()
        invariant
            i <= models@.len(),
            data@.len() == i,
            forall|j: int|
                #![trigger data@[j]]
                0 <= j < i ==> {
                    &&& data@[j].id@ == models@[j].id@
                    &&& data@[j].object@ == "model"@
                    &&& data@[j].owned_by@ == "axiom"@
                    &&& data@[j].supported_reasoning_efforts@.len()
                        == models@[j].supported_reasoning_efforts@.len()
                    &&& forall|k: int|
                        0 <= k < models@[j].supported_reasoning_efforts@.len() ==> (
                        #[trigger] data@[j].supported_reasoning_efforts@[k])@
                            == models@[j].supported_reasoning_efforts@[k]@
                },
        decreases models@.len() - i,
    {
        let m = &models[i];
        data.push(
            ModelEntry {
                id: m.id.clone(),
                object: "model",
                owned_by: "axiom",
                supported_reasoning_efforts: crate::state::clone_strings(&m.supported_reasoning_efforts),
            },
        );
        i = i + 1;
    }
    ModelList { object: "list", data }
}

/// The 413 for an encrypted relay request over the size limit.
pub fn check_relay_request_size(size: usize) -> (r: Result<(), AppError>)
    ensures
        size <= MAX_RELAY_REQUEST_BYTES <==> r is Ok,
        r matches Err(e) ==> app_error(
            e,
            413,
            "invalid_request_error"@,
            "encrypted relay request exceeds 2097152 bytes"@,
        ),
{
    if size > MAX_RELAY_REQUEST_BYTES {
        return Err(
            AppError::new(
                413,
                "invalid_request_error",
                String::from_str("encrypted relay request exceeds 2097152 bytes"),
            ),
        );
    }
    Ok(())
}

/// The bytes the model key is fingerprinted from: its hex decoding, or its text when that is not
/// hex.
pub open spec fn model_key_material(key_hex: Seq<char>) -> Seq<u8> {
    match hex_decode(key_hex) {
        Some(b) => b,
        None => vstd::utf8::encode_utf8(key_hex),
    }
}

/// The security receipt of a request sent on `relay`: the E2EE facts of the request and the
/// attestation it used, the model key only as a SHA-256 fingerprint.
pub fn security_receipt(
    model: &RelayModel,
    relay: &RelayChatRequest,
    verified: &VerifiedModel,
    verified_at_unix_ms: u64,
    age_ms: u64,
) -> (r: RequestSecurityReceipt)
    ensures
        r.model@ == model.id@,
        r.provider@ == model.provider@,
        opt_view(r.e2ee.protocol) == opt_view(relay.e2ee_protocol),
        r.e2ee.encryption_version == Some(relay.encryption_version),
        r.e2ee.request_encrypted,
        !r.e2ee.backend_key_accepted,
        !r.e2ee.response_decrypted,
        r.e2ee.ephemeral_client_key == relay.client_public_key_hex is Some,
        r.tee.verified,
        r.tee.verified_at_unix_ms == Some(verified_at_unix_ms),
        r.tee.age_ms == Some(age_ms),
        opt_view(r.tee.model_key_sha256) == Some(
            hex_encode(sha256(model_key_material(verified.model_public_key_hex@))),
        ),
        opt_view(r.tee.tls_spki_sha256) == opt_view(verified.tls_fingerprint),
        r.tee.checks@.len() == verified.checks@.len(),
{
    let key_bytes = match decode_hex(verified.model_public_key_hex.as_str()) {
        Ok(b) => b,
        Err(_) => vstd::slice::slice_to_vec(verified.model_public_key_hex.as_str().as_bytes()),
    };
    let fingerprint = encode_hex(sha256_bytes(key_bytes.as_slice()).as_slice());
    RequestSecurityReceipt {
        model: model.id.clone(),
        provider: model.provider.clone(),
        e2ee: E2eeAuditReceipt {
            protocol: crate::history::clone_optional(&relay.e2ee_protocol),
            encryption_version: Some(relay.encryption_version),
            request_encrypted: true,
            backend_key_accepted: false,
            response_decrypted: false,
            ephemeral_client_key: relay.client_public_key_hex.is_some(),
        },
        tee: TeeAuditReceipt {
            verified: true,
            verified_at_unix_ms: Some(verified_at_unix_ms),
            age_ms: Some(age_ms),
            model_key_sha256: Some(fingerprint),
            tls_spki_sha256: crate::history::clone_optional(&verified.tls_fingerprint),
            checks: crate::history::clone_checks(&verified.checks),
        },
    }
}

proof fn lemma_identifier_small(s: Seq<char>, max: nat)
    requires
        crate::openai::is_identifier(s, max),
        max <= 256,
    ensures
        small(s),
{
    assert forall|i: int| 0 <= i < s.len() implies (#[trigger] s[i] as u32) < 128 by {
        assert(crate::openai::is_identifier_char(s[i]));
    }
    crate::text::lemma_ascii_byte_len(s);
}

proof fn lemma_valid_message_fits(m: ChatMessage)
    requires
        crate::openai::message_error(m) is None,
    ensures
        message_text(m) is Ok,
        message_fits(m),
{
    if m.name is Some {
        lemma_identifier_small(m.name->0@, crate::openai::MAX_FUNCTION_NAME_CHARS as nat);
    }
    match m.tool_calls {
        Some(cs) => {
            assert(m.role == crate::openai::MessageRole::Assistant);
            assert(tool_calls_error(cs@) is None);
            assert forall|i: int| 0 <= i < cs@.len() implies small(
                (#[trigger] cs@[i]).function.name@,
            ) && small(cs@[i].function.arguments@) by {
                crate::openai::lemma_first_error_none(
                    cs@.len(),
                    crate::openai::tool_call_checks(cs@),
                    i,
                );
                assert(crate::openai::tool_call_checks(cs@)(i) is None);
                assert(crate::openai::tool_call_error_at(cs@, i) is None);
                lemma_identifier_small(
                    cs@[i].function.name@,
                    crate::openai::MAX_FUNCTION_NAME_CHARS as nat,
                );
            }
        },
        None => {},
    }
}

/// A request that passes validation has flattening message texts and only plaintexts small enough
/// to seal: `prepare_relay_request` assembles it whenever the attested key is a curve point.
pub proof fn lemma_valid_request_fits(req: ChatRequest)
    requires
        request_error(req) is None,
    ensures
        texts_flatten(req),
        request_fits(req),
{
    let msgs = req.messages@;
    assert forall|i: int| 0 <= i < msgs.len() implies message_text(#[trigger] msgs[i]) is Ok
        && message_fits(msgs[i]) by {
        crate::openai::lemma_first_error_none(msgs.len(), crate::openai::message_checks(msgs), i);
        assert(crate::openai::message_checks(msgs)(i) is None);
        assert(crate::openai::message_error_at(msgs, i) is None);
        lemma_valid_message_fits(msgs[i]);
    }
    match req.tools {
        Some(ts) => {
            assert forall|j: int| 0 <= j < ts@.len() implies tool_fits(#[trigger] ts@[j]) by {
                crate::openai::lemma_first_error_none(
                    ts@.len(),
                    crate::openai::tool_checks(ts@),
                    j,
                );
                assert(crate::openai::tool_checks(ts@)(j) is None);
                assert(crate::openai::tool_error_at(ts@, j) is None);
                assert(crate::openai::tool_definition_error(ts@[j]) is None);
                lemma_identifier_small(
                    ts@[j].function.name@,
                    crate::openai::MAX_FUNCTION_NAME_CHARS as nat,
                );
            }
        },
        None => {},
    }
    match req.tool_choice {
        Some(ToolChoice::Named(n)) => {
            lemma_identifier_small(n.function.name@, crate::openai::MAX_FUNCTION_NAME_CHARS as nat);
        },
        _ => {},
    }
}

// ---- the non-streaming response ----

/// Why an encrypted response field fails to decrypt to text, if it does.
pub open spec fn field_failure(secret: Seq<u8>, wire: Seq<char>, field: Seq<char>) -> Option<Seq<char>> {
    match opened(secret, wire) {
        None => Some("failed to decrypt provider "@ + field),
        Some(b) => if vstd::utf8::valid_utf8(b) {
            None
        } else {
            Some("provider "@ + field + " is not valid UTF-8"@)
        },
    }
}

pub open spec fn opt_field_failure(secret: Seq<u8>, wire: Option<String>, field: Seq<char>) -> Option<
    Seq<char>,
> {
    match wire {
        Some(w) => field_failure(secret, w@, field),
        None => None,
    }
}

/// The first tool call (among the first `n`) whose name or arguments fail to decrypt.
pub open spec fn first_call_failure(secret: Seq<u8>, calls: Seq<RelayEncryptedToolCall>, n: nat) -> Option<
    Seq<char>,
>
    decreases n,
{
    if n == 0 {
        None
    } else {
        match first_call_failure(secret, calls, (n - 1) as nat) {
            Some(e) => Some(e),
            None => {
                let c = calls[n - 1];
                match field_failure(secret, c.function.encrypted_name@, "tool call name"@) {
                    Some(e) => Some(e),
                    None => field_failure(
                        secret,
                        c.function.encrypted_arguments@,
                        "tool call arguments"@,
                    ),
                }
            },
        }
    }
}

proof fn lemma_first_call_failure_persists(
    secret: Seq<u8>,
    calls: Seq<RelayEncryptedToolCall>,
    i: nat,
    n: nat,
)
    requires
        i <= n,
        first_call_failure(secret, calls, i) is Some,
    ensures
        first_call_failure(secret, calls, n) == first_call_failure(secret, calls, i),
    decreases n - i,
{
    if i < n {
        lemma_first_call_failure_persists(secret, calls, i, (n - 1) as nat);
    }
}

/// The decrypted texts of a tool call whose fields decrypt.
pub open spec fn decrypted_call_view(secret: Seq<u8>, c: RelayEncryptedToolCall) -> (
    Seq<char>,
    Seq<char>,
    Seq<char>,
    Seq<char>,
) {
    (
        c.id@,
        c.kind@,
        decrypted_text(secret, c.function.encrypted_name@)->0,
        decrypted_text(secret, c.function.encrypted_arguments@)->0,
    )
}

pub open spec fn decrypted_call_views(secret: Seq<u8>, calls: Seq<RelayEncryptedToolCall>) -> Seq<
    (Seq<char>, Seq<char>, Seq<char>, Seq<char>),
> {
    calls.map_values(|c: RelayEncryptedToolCall| decrypted_call_view(secret, c))
}

pub open spec fn finish_of(c: RelayCompletion) -> Seq<char> {
    match c.finish_reason {
        Some(f) => f@,
        None => "stop"@,
    }
}

/// Why a relay completion is refused (all are 502s): the error type and message, in the order
/// the checks run.
pub open spec fn completion_failure(secret: Seq<u8>, c: RelayCompletion) -> Option<(Seq<char>, Seq<char>)> {
    let calls = c.encrypted_tool_calls@;
    if opt_field_failure(secret, c.encrypted_content, "content"@) is Some {
        Some(("decryption_error"@, opt_field_failure(secret, c.encrypted_content, "content"@)->0))
    } else if opt_field_failure(secret, c.encrypted_reasoning_content, "reasoning_content"@) is Some {
        Some(
            (
                "decryption_error"@,
                opt_field_failure(secret, c.encrypted_reasoning_content, "reasoning_content"@)->0,
            ),
        )
    } else if opt_field_failure(secret, c.encrypted_refusal, "refusal"@) is Some {
        Some(("decryption_error"@, opt_field_failure(secret, c.encrypted_refusal, "refusal"@)->0))
    } else if first_call_failure(secret, calls, calls.len()) is Some {
        Some(("decryption_error"@, first_call_failure(secret, calls, calls.len())->0))
    } else if calls.len() > 0 && crate::openai::calls_error(decrypted_call_views(secret, calls))
        is Some {
        Some(("upstream_error"@, crate::openai::calls_error(decrypted_call_views(secret, calls))->0))
    } else if c.encrypted_content is None && c.encrypted_refusal is None && calls.len() == 0 {
        Some(("upstream_error"@, "provider completion contained no content, refusal, or tool calls"@))
    } else if !is_finish_reason(finish_of(c)) {
        Some(("upstream_error"@, crate::openai::finish_reason_message()))
    } else {
        None
    }
}

pub open spec fn opt_decrypted(secret: Seq<u8>, wire: Option<String>) -> Option<Seq<char>> {
    match wire {
        Some(w) => decrypted_text(secret, w@),
        None => None,
    }
}

/// The OpenAI response for an accepted relay completion.
pub open spec fn completion_response(
    secret: Seq<u8>,
    c: RelayCompletion,
    id: Seq<char>,
    created: u64,
    model: Seq<char>,
    out: ChatCompletion,
) -> bool {
    let calls = c.encrypted_tool_calls@;
    &&& out.id@ == id
    &&& out.object@ == "chat.completion"@
    &&& out.created == created
    &&& out.model@ == model
    &&& out.choices@.len() == 1
    &&& out.choices@[0].index == 0
    &&& out.choices@[0].finish_reason@ == finish_of(c)
    &&& out.choices@[0].message.role@ == "assistant"@
    &&& opt_view(out.choices@[0].message.content) == opt_decrypted(secret, c.encrypted_content)
    &&& opt_view(out.choices@[0].message.reasoning_content) == opt_decrypted(
        secret,
        c.encrypted_reasoning_content,
    )
    &&& opt_view(out.choices@[0].message.refusal) == opt_decrypted(secret, c.encrypted_refusal)
    &&& if calls.len() == 0 {
        out.choices@[0].message.tool_calls is None
    } else {
        out.choices@[0].message.tool_calls matches Some(ts) && crate::openai::call_views(ts@)
            == decrypted_call_views(secret, calls)
    }
    &&& out.usage matches Some(u) && u.prompt_tokens == crate::sse::usage_or_zero(
        c.usage.prompt_tokens,
    ) && u.completion_tokens == crate::sse::usage_or_zero(c.usage.completion_tokens)
        && u.total_tokens == crate::sse::usage_or_zero(c.usage.total_tokens)
}

/// Decrypts one response field to text.
fn decrypt_text(session: &mut NearSession, value: &str, field: &str) -> (r: Result<String, AppError>)
    ensures
        *final(session) == *old(session),
        ({
            let failure = field_failure(old(session).keypair.x25519_secret@, value@, field@);
            &&& failure matches Some(m) ==> (r matches Err(e) && app_error(
                e,
                502,
                "decryption_error"@,
                m,
            ))
            &&& failure is None ==> (r matches Ok(t) && Some(t@) == decrypted_text(
                old(session).keypair.x25519_secret@,
                value@,
            ))
        }),
{
    let result = session.decrypt(value);
    proof {
        crate::e2ee::lemma_decrypt_spec_opened(session.keypair.x25519_secret@, value@, result);
    }
    let bytes = match result {
        Ok(b) => b,
        Err(_) => {
            return Err(
                AppError::new(502, "decryption_error", concat2("failed to decrypt provider ", field)),
            );
        },
    };
    match string_from_utf8(bytes) {
        Some(t) => Ok(t),
        None => {
            let mut message = concat2("provider ", field);
            message.append(" is not valid UTF-8");
            Err(AppError::new(502, "decryption_error", message))
        },
    }
}

fn decrypt_optional(session: &mut NearSession, value: &Option<String>, field: &str) -> (r: Result<
    Option<String>,
    AppError,
>)
    ensures
        *final(session) == *old(session),
        ({
            let secret = old(session).keypair.x25519_secret@;
            let failure = opt_field_failure(secret, *value, field@);
            &&& failure matches Some(m) ==> (r matches Err(e) && app_error(
                e,
                502,
                "decryption_error"@,
                m,
            ))
            &&& failure is None ==> (r matches Ok(t) && opt_view(t) == opt_decrypted(secret, *value))
        }),
{
    match value {
        Some(w) => {
            let t = decrypt_text(session, w.as_str(), field)?;
            Ok(Some(t))
        },
        None => Ok(None),
    }
}

/// Ends the request with a failure and hands back the error.
fn refuse(audit: &mut RequestAudit, error: AppError, now_unix_ms: u64, duration_ms: u64) -> (r: (
    AppError,
    Option<RequestLogEntry>,
))
    ensures
        r.0 == error,
        terminal_step(
            *old(audit),
            *final(audit),
            r.1,
            RequestTerminalStatus::Failed,
            0,
            0,
            None,
            Some(error.kind@),
            now_unix_ms,
            duration_ms,
        ),
{
    let record = audit.fail(error.kind.clone(), now_unix_ms, duration_ms);
    (error, record)
}

/// The OpenAI response for a relay completion: every encrypted field decrypted, the tool calls and
/// finish reason checked. A refusal ends the request's audit as failed with the error's type; an
/// accepted completion ends it as completed with the reported usage.
pub fn complete_response(
    completion: &RelayCompletion,
    session: &mut NearSession,
    audit: &mut RequestAudit,
    id: String,
    created: u64,
    model_label: String,
    now_unix_ms: u64,
    duration_ms: u64,
) -> (r: (Result<ChatCompletion, AppError>, Option<RequestLogEntry>))
    ensures
        *final(session) == *old(session),
        ({
            let secret = old(session).keypair.x25519_secret@;
            let failure = completion_failure(secret, *completion);
            &&& failure matches Some(f) ==> (r.0 matches Err(e) && app_error(e, 502, f.0, f.1))
                && terminal_step(
                *old(audit),
                *final(audit),
                r.1,
                RequestTerminalStatus::Failed,
                0,
                0,
                None,
                Some(f.0),
                now_unix_ms,
                duration_ms,
            )
            &&& failure is None ==> (r.0 matches Ok(out) && completion_response(
                secret,
                *completion,
                id@,
                created,
                model_label@,
                out,
            )) && (exists|mid: RequestAudit|
                mid.e2ee.response_decrypted && crate::sse::audit_progress(*old(audit), mid)
                    && terminal_step(
                    mid,
                    *final(audit),
                    r.1,
                    RequestTerminalStatus::Completed,
                    crate::sse::usage_or_zero(completion.usage.prompt_tokens),
                    crate::sse::usage_or_zero(completion.usage.completion_tokens),
                    Some(finish_of(*completion)),
                    None,
                    now_unix_ms,
                    duration_ms,
                ))
        }),
{
    let ghost secret = session.keypair.x25519_secret@;
    let content = match decrypt_optional(session, &completion.encrypted_content, "content") {
        Ok(v) => v,
        Err(e) => {
            let (e, record) = refuse(audit, e, now_unix_ms, duration_ms);
            return (Err(e), record);
        },
    };
    let reasoning = match decrypt_optional(
        session,
        &completion.encrypted_reasoning_content,
        "reasoning_content",
    ) {
        Ok(v) => v,
        Err(e) => {
            let (e, record) = refuse(audit, e, now_unix_ms, duration_ms);
            return (Err(e), record);
        },
    };
    let refusal = match decrypt_optional(session, &completion.encrypted_refusal, "refusal") {
        Ok(v) => v,
        Err(e) => {
            let (e, record) = refuse(audit, e, now_unix_ms, duration_ms);
            return (Err(e), record);
        },
    };
    let calls = &completion.encrypted_tool_calls;
    let n = calls.len();
    let mut tool_calls: Vec<ToolCall> = Vec::new();
    let mut i: usize = 0;
    let ghost s0 = *session;
    let ghost a0 = *audit;
    while i < n
        invariant
            n == calls@.len(),
            i <= n,
            *session == s0,
            *audit == a0,
            s0 == *old(session),
            a0 == *old(audit),
            secret == s0.keypair.x25519_secret@,
            calls@ == completion.encrypted_tool_calls@,
            opt_field_failure(secret, completion.encrypted_content, "content"@) is None,
            opt_field_failure(secret, completion.encrypted_reasoning_content, "reasoning_content"@)
                is None,
            opt_field_failure(secret, completion.encrypted_refusal, "refusal"@) is None,
            opt_view(content) == opt_decrypted(secret, completion.encrypted_content),
            opt_view(reasoning) == opt_decrypted(secret, completion.encrypted_reasoning_content),
            opt_view(refusal) == opt_decrypted(secret, completion.encrypted_refusal),
            first_call_failure(secret, calls@, i as nat) is None,
            tool_calls@.len() == i,
            forall|k: int|
                0 <= k < i ==> crate::openai::call_view(#[trigger] tool_calls@[k])
                    == decrypted_call_view(secret, calls@[k]),
        decreases n - i,
    {
        let call = &calls[i];
        let name = match decrypt_text(session, call.function.encrypted_name.as_str(), "tool call name") {
            Ok(v) => v,
            Err(e) => {
                proof {
                    assert(first_call_failure(secret, calls@, (i + 1) as nat) is Some);
                    lemma_first_call_failure_persists(secret, calls@, (i + 1) as nat, n as nat);
                }
                let (e, record) = refuse(audit, e, now_unix_ms, duration_ms);
                return (Err(e), record);
            },
        };
        let arguments = match decrypt_text(
            session,
            call.function.encrypted_arguments.as_str(),
            "tool call arguments",
        ) {
            Ok(v) => v,
            Err(e) => {
                proof {
                    assert(first_call_failure(secret, calls@, (i + 1) as nat) is Some);
                    lemma_first_call_failure_persists(secret, calls@, (i + 1) as nat, n as nat);
                }
                let (e, record) = refuse(audit, e, now_unix_ms, duration_ms);
                return (Err(e), record);
            },
        };
        tool_calls.push(
            ToolCall {
                id: call.id.clone(),
                kind: call.kind.clone(),
                function: FunctionCall { name, arguments },
            },
        );
        i = i + 1;
    }
    proof {
        assert(crate::openai::call_views(tool_calls@) =~= decrypted_call_views(secret, calls@));
    }
    if tool_calls.len() > 0 {
        match validate_tool_calls(tool_calls.as_slice()) {
            Err(message) => {
                let (e, record) = refuse(
                    audit,
                    AppError::new(502, "upstream_error", message),
                    now_unix_ms,
                    duration_ms,
                );
                return (Err(e), record);
            },
            Ok(()) => {},
        }
    }
    if content.is_none() && refusal.is_none() && tool_calls.len() == 0 {
        let (e, record) = refuse(
            audit,
            AppError::new(
                502,
                "upstream_error",
                String::from_str("provider completion contained no content, refusal, or tool calls"),
            ),
            now_unix_ms,
            duration_ms,
        );
        return (Err(e), record);
    }
    let finish_reason = match &completion.finish_reason {
        Some(f) => f.clone(),
        None => String::from_str("stop"),
    };
    match validate_finish_reason(finish_reason.as_str()) {
        Err(message) => {
            let (e, record) = refuse(
                audit,
                AppError::new(502, "upstream_error", message),
                now_unix_ms,
                duration_ms,
            );
            return (Err(e), record);
        },
        Ok(()) => {},
    }
    let prompt_tokens = match completion.usage.prompt_tokens {
        Some(x) => x,
        None => 0,
    };
    let completion_tokens = match completion.usage.completion_tokens {
        Some(x) => x,
        None => 0,
    };
    let total_tokens = match completion.usage.total_tokens {
        Some(x) => x,
        None => 0,
    };
    audit.response_decrypted();
    let ghost mid = *audit;
    let record = audit.complete(
        prompt_tokens,
        completion_tokens,
        finish_reason.clone(),
        now_unix_ms,
        duration_ms,
    );
    let message = AssistantMessage {
        role: "assistant",
        content,
        reasoning_content: reasoning,
        refusal,
        tool_calls: if tool_calls.len() > 0 {
            Some(tool_calls)
        } else {
            None
        },
    };
    let mut choices: Vec<Choice> = Vec::new();
    choices.push(Choice { index: 0, message, finish_reason });
    let out = ChatCompletion {
        id,
        object: "chat.completion",
        created,
        model: model_label,
        choices,
        usage: Some(Usage { prompt_tokens, completion_tokens, total_tokens }),
    };
    proof {
        assert(completion_failure(secret, *completion) is None);
        assert(completion_response(secret, *completion, id@, created, model_label@, out));
        assert(mid.e2ee.response_decrypted && crate::sse::audit_progress(*old(audit), mid));
    }
    (Ok(out), record)
}

} // verus!
