//! Translation of a relay stream into OpenAI chat-completion stream frames.
//!
//! The translator consumes relay events one at a time, decrypts every encrypted field with the
//! request's session, and answers each event with the frames to send (chunks, an error object, the
//! `[DONE]` marker) and, when the event ends the request, its audit record. Any decryption failure,
//! malformed tool-call metadata or invalid finish reason ends the stream fail-closed.

use vstd::prelude::*;

use crate::audit::{terminal_step, RequestAudit};
use crate::e2ee::opened;
use crate::error::{error_text, CoreError};
use crate::events::{RequestLogEntry, RequestTerminalStatus};
use crate::near::NearSession;
use crate::openai::{
    is_finish_reason, is_tool_call_id, opt_view, validate_finish_reason, validate_tool_call_id,
    ApiErrorBody, ChatChunk, ChunkChoice, Delta, FunctionCallDelta, ToolCallDelta, Usage,
    MAX_TOOL_CALLS,
};
use crate::relay::{RelayEncryptedToolCallDelta, RelayEvent};
use crate::text::{string_from_utf8, string_is};

verus! {

/// The text a session recovers from an encrypted field: the opened bytes, when they are UTF-8.
pub open spec fn decrypted_text(secret: Seq<u8>, wire: Seq<char>) -> Option<Seq<char>> {
    match opened(secret, wire) {
        Some(b) => if vstd::utf8::valid_utf8(b) {
            Some(vstd::utf8::decode_utf8(b))
        } else {
            None
        },
        None => None,
    }
}

/// Decrypts one field to text.
pub fn decrypt_utf8(session: &mut NearSession, wire: &str) -> (r: Option<String>)
    ensures
        *final(session) == *old(session),
        opt_view(r) == decrypted_text(old(session).keypair.x25519_secret@, wire@),
{
    let result = session.decrypt(wire);
    proof {
        crate::e2ee::lemma_decrypt_spec_opened(session.keypair.x25519_secret@, wire@, result);
    }
    match result {
        Ok(bytes) => string_from_utf8(bytes),
        Err(_) => None,
    }
}

/// Whether a tool-call id is 1..=256 opaque ASCII characters.
pub fn valid_tool_call_id(value: &str) -> (r: bool)
    ensures
        r == is_tool_call_id(value@),
{
    validate_tool_call_id(value).is_ok()
}

/// One chat-completion chunk with a single choice.
pub fn chunk(id: &str, model: &str, created: u64, delta: Delta, finish: Option<&str>) -> (r: ChatChunk)
    ensures
        r.id@ == id@,
        r.object@ == "chat.completion.chunk"@,
        r.created == created,
        r.model@ == model@,
        r.choices@.len() == 1,
        r.choices@[0].index == 0,
        r.choices@[0].delta == delta,
        opt_view(r.choices@[0].finish_reason) == match finish {
            Some(f) => Some(f@),
            None => None::<Seq<char>>,
        },
        r.usage is None,
{
    let finish_reason = match finish {
        Some(f) => Some(String::from_str(f)),
        None => None,
    };
    let mut choices: Vec<ChunkChoice> = Vec::new();
    choices.push(ChunkChoice { index: 0, delta, finish_reason });
    ChatChunk {
        id: String::from_str(id),
        object: "chat.completion.chunk",
        created,
        model: String::from_str(model),
        choices,
        usage: None,
    }
}

/// One frame of the OpenAI stream: a chunk, an error object, or the `[DONE]` marker.
#[derive(Debug)]
pub enum StreamFrame {
    Chunk(ChatChunk),
    Error(ApiErrorBody),
    Done,
}

/// The answer to one relay event: frames to send, in order, and the audit record when the event
/// ended the request.
#[derive(Debug)]
pub struct StreamStep {
    pub frames: Vec<StreamFrame>,
    pub record: Option<RequestLogEntry>,
}

/// The per-request state of the translation.
#[derive(Debug)]
pub struct StreamTranslator {
    pub id: String,
    pub model: String,
    pub created: u64,
    pub include_usage: bool,
    pub prompt_tokens: u32,
    pub completion_tokens: u32,
    pub finished: bool,
}

pub open spec fn error_frame(f: StreamFrame, message: Seq<char>, kind: Seq<char>, code: Option<
    Seq<char>,
>) -> bool {
    f matches StreamFrame::Error(b) && b.message@ == message && b.kind@ == kind && opt_view(b.code)
        == code
}

/// A chunk of this stream with one choice and the given finish reason.
pub open spec fn stream_chunk(f: StreamFrame, t: StreamTranslator, finish: Option<Seq<char>>) -> bool {
    f matches StreamFrame::Chunk(c) && c.id@ == t.id@ && c.object@ == "chat.completion.chunk"@
        && c.created == t.created && c.model@ == t.model@ && c.choices@.len() == 1
        && c.choices@[0].index == 0 && opt_view(c.choices@[0].finish_reason) == finish
        && c.usage is None
}

/// A delta that carries nothing: no role, text, reasoning, refusal or tool calls.
pub open spec fn empty_delta(d: Delta) -> bool {
    &&& d.role is None
    &&& d.content is None
    &&& d.reasoning_content is None
    &&& d.refusal is None
    &&& d.tool_calls is None
}

/// An error object followed by `[DONE]`.
pub open spec fn error_then_done(frames: Seq<StreamFrame>, message: Seq<char>, kind: Seq<char>, code: Option<
    Seq<char>,
>) -> bool {
    frames.len() == 2 && error_frame(frames[0], message, kind, code) && frames[1] is Done
}

// ---- delta events ----

/// An optional encrypted field decrypts (or is absent).
pub open spec fn field_ok(secret: Seq<u8>, wire: Option<String>) -> bool {
    wire matches Some(w) ==> decrypted_text(secret, w@) is Some
}

pub open spec fn field_text(secret: Seq<u8>, wire: Option<String>) -> Option<Seq<char>> {
    match wire {
        Some(w) => decrypted_text(secret, w@),
        None => None,
    }
}

/// Whether the metadata of the `i`th tool-call delta is acceptable: an index below the limit not
/// used by an earlier delta, a valid id and the `function` type when present.
pub open spec fn tool_delta_meta_ok(calls: Seq<RelayEncryptedToolCallDelta>, i: int) -> bool {
    let c = calls[i];
    &&& c.index < MAX_TOOL_CALLS
    &&& !exists|j: int| 0 <= j < i && (#[trigger] calls[j]).index == c.index
    &&& c.id matches Some(id) ==> is_tool_call_id(id@)
    &&& c.kind matches Some(k) ==> k@ == "function"@
}

/// The failure (message, type) of the `i`th tool-call delta, if it fails.
pub open spec fn tool_delta_failure(secret: Seq<u8>, calls: Seq<RelayEncryptedToolCallDelta>, i: int) -> Option<
    (Seq<char>, Seq<char>),
> {
    if !tool_delta_meta_ok(calls, i) {
        Some(("invalid provider tool-call delta metadata"@, "upstream_error"@))
    } else {
        match calls[i].function {
            Some(f) => if !field_ok(secret, f.encrypted_name) {
                Some(("failed to decrypt provider tool-call name"@, "decryption_error"@))
            } else if !field_ok(secret, f.encrypted_arguments) {
                Some(("failed to decrypt provider tool-call arguments"@, "decryption_error"@))
            } else {
                None
            },
            None => None,
        }
    }
}

/// The first failure among the first `n` tool-call deltas.
pub open spec fn first_tool_failure(secret: Seq<u8>, calls: Seq<RelayEncryptedToolCallDelta>, n: nat) -> Option<
    (Seq<char>, Seq<char>),
>
    decreases n,
{
    if n == 0 {
        None
    } else {
        match first_tool_failure(secret, calls, (n - 1) as nat) {
            Some(e) => Some(e),
            None => tool_delta_failure(secret, calls, n - 1),
        }
    }
}

proof fn lemma_first_tool_failure_persists(
    secret: Seq<u8>,
    calls: Seq<RelayEncryptedToolCallDelta>,
    i: nat,
    n: nat,
)
    requires
        i <= n,
        first_tool_failure(secret, calls, i) is Some,
    ensures
        first_tool_failure(secret, calls, n) == first_tool_failure(secret, calls, i),
    decreases n - i,
{
    if i < n {
        lemma_first_tool_failure_persists(secret, calls, i, (n - 1) as nat);
    }
}

/// The failure (message, type) of a delta event, in the order the fields are processed.
pub open spec fn delta_failure(
    secret: Seq<u8>,
    content: Option<String>,
    reasoning: Option<String>,
    refusal: Option<String>,
    calls: Seq<RelayEncryptedToolCallDelta>,
) -> Option<(Seq<char>, Seq<char>)> {
    if !field_ok(secret, content) {
        Some(("failed to decrypt provider delta"@, "decryption_error"@))
    } else if !field_ok(secret, reasoning) {
        Some(("failed to decrypt provider reasoning delta"@, "decryption_error"@))
    } else if !field_ok(secret, refusal) {
        Some(("failed to decrypt provider refusal delta"@, "decryption_error"@))
    } else if calls.len() > MAX_TOOL_CALLS {
        Some(("provider returned too many tool-call deltas"@, "upstream_error"@))
    } else {
        first_tool_failure(secret, calls, calls.len())
    }
}

/// The decrypted form of a tool-call delta.
pub open spec fn tool_delta_decrypted(secret: Seq<u8>, c: RelayEncryptedToolCallDelta, d: ToolCallDelta) -> bool {
    &&& d.index == c.index
    &&& opt_view(d.id) == opt_view(c.id)
    &&& opt_view(d.kind) == opt_view(c.kind)
    &&& match c.function {
        Some(f) => d.function matches Some(g) && opt_view(g.name) == field_text(
            secret,
            f.encrypted_name,
        ) && opt_view(g.arguments) == field_text(secret, f.encrypted_arguments),
        None => d.function is None,
    }
}

/// The decrypted delta of a delta event that did not fail.
pub open spec fn delta_decrypted(
    secret: Seq<u8>,
    content: Option<String>,
    reasoning: Option<String>,
    refusal: Option<String>,
    calls: Seq<RelayEncryptedToolCallDelta>,
    d: Delta,
) -> bool {
    &&& d.role is None
    &&& opt_view(d.content) == field_text(secret, content)
    &&& opt_view(d.reasoning_content) == field_text(secret, reasoning)
    &&& opt_view(d.refusal) == field_text(secret, refusal)
    &&& if calls.len() == 0 {
        d.tool_calls is None
    } else {
        d.tool_calls matches Some(ts) && ts@.len() == calls.len() && forall|i: int|
            0 <= i < calls.len() ==> tool_delta_decrypted(secret, #[trigger] calls[i], ts@[i])
    }
}

/// Whether a delta event that did not fail carries anything to send.
pub open spec fn delta_nonempty(
    content: Option<String>,
    reasoning: Option<String>,
    refusal: Option<String>,
    calls: Seq<RelayEncryptedToolCallDelta>,
) -> bool {
    content is Some || reasoning is Some || refusal is Some || calls.len() > 0
}

/// The audit after a step that did not end the request: only the decryption fact may be set.
pub open spec fn audit_progress(before: RequestAudit, after: RequestAudit) -> bool {
    &&& after.id == before.id
    &&& after.model == before.model
    &&& after.provider == before.provider
    &&& after.stream == before.stream
    &&& after.started_at_unix_ms == before.started_at_unix_ms
    &&& after.tee == before.tee
    &&& after.terminal == before.terminal
    &&& after.cancel_on_drop == before.cancel_on_drop
    &&& after.e2ee.protocol == before.e2ee.protocol
    &&& after.e2ee.encryption_version == before.e2ee.encryption_version
    &&& after.e2ee.request_encrypted == before.e2ee.request_encrypted
    &&& after.e2ee.backend_key_accepted == before.e2ee.backend_key_accepted
    &&& (before.e2ee.response_decrypted ==> after.e2ee.response_decrypted)
}

/// Decrypts an optional field, noting a successful decryption in the audit.
fn decrypt_field(session: &mut NearSession, audit: &mut RequestAudit, wire: &Option<String>) -> (r: Result<
    Option<String>,
    (),
>)
    ensures
        *final(session) == *old(session),
        r is Ok <==> field_ok(old(session).keypair.x25519_secret@, *wire),
        r matches Ok(t) ==> opt_view(t) == field_text(old(session).keypair.x25519_secret@, *wire),
        audit_progress(*old(audit), *final(audit)),
        final(audit).e2ee.response_decrypted == (old(audit).e2ee.response_decrypted || (r matches Ok(
            t,
        ) && t is Some)),
{
    match wire {
        None => Ok(None),
        Some(w) => match decrypt_utf8(session, w.as_str()) {
            Some(text) => {
                audit.response_decrypted();
                Ok(Some(text))
            },
            None => Err(()),
        },
    }
}

fn index_seen(calls: &Vec<RelayEncryptedToolCallDelta>, upto: usize, index: u32) -> (r: bool)
    requires
        upto <= calls@.len(),
    ensures
        r == exists|j: int| 0 <= j < upto && (#[trigger] calls@[j]).index == index,
{
    let mut j: usize = 0;
    while j < upto
        invariant
            upto <= calls@.len(),
            j <= upto,
            forall|k: int| 0 <= k < j ==> (#[trigger] calls@[k]).index != index,
        decreases upto - j,
    {
        if calls[j].index == index {
            return true;
        }
        j = j + 1;
    }
    false
}

fn clone_opt(s: &Option<String>) -> (r: Option<String>)
    ensures
        opt_view(r) == opt_view(*s),
{
    crate::history::clone_optional(s)
}

/// Whether a tool-call delta carries an encrypted function name or arguments.
pub open spec fn carries_function_text(c: RelayEncryptedToolCallDelta) -> bool {
    c.function matches Some(f) && (f.encrypted_name is Some || f.encrypted_arguments is Some)
}

/// Decrypts the tool-call deltas of one event, or reports the first failure.
fn translate_tool_calls(
    session: &mut NearSession,
    audit: &mut RequestAudit,
    calls: &Vec<RelayEncryptedToolCallDelta>,
) -> (r: Result<Vec<ToolCallDelta>, (String, String)>)
    ensures
        *final(session) == *old(session),
        audit_progress(*old(audit), *final(audit)),
        ({
            let secret = old(session).keypair.x25519_secret@;
            let failure = first_tool_failure(secret, calls@, calls@.len());
            &&& failure matches Some(f) ==> (r matches Err(e) && e.0@ == f.0 && e.1@ == f.1)
            &&& failure is None ==> (r matches Ok(ts) && ts@.len() == calls@.len() && forall|i: int|
                0 <= i < calls@.len() ==> tool_delta_decrypted(secret, #[trigger] calls@[i], ts@[i]))
        }),
        r is Ok ==> final(audit).e2ee.response_decrypted == (old(audit).e2ee.response_decrypted
            || exists|i: int|
            0 <= i < calls@.len() && carries_function_text(#[trigger] calls@[i])),
{
    let ghost secret = session.keypair.x25519_secret@;
    let ghost s0 = *session;
    let ghost a0 = *audit;
    let n = calls.len();
    let mut out: Vec<ToolCallDelta> = Vec::new();
    let mut i: usize = 0;
    while i < n
        invariant
            n == calls@.len(),
            i <= n,
            *session == s0,
            s0 == *old(session),
            a0 == *old(audit),
            secret == s0.keypair.x25519_secret@,
            audit_progress(a0, *audit),
            first_tool_failure(secret, calls@, i as nat) is None,
            out@.len() == i,
            forall|k: int| 0 <= k < i ==> tool_delta_decrypted(secret, #[trigger] calls@[k], out@[k]),
            audit.e2ee.response_decrypted == (a0.e2ee.response_decrypted || exists|k: int|
                0 <= k < i && carries_function_text(#[trigger] calls@[k])),
        decreases n - i,
    {
        let call = &calls[i];
        let id_ok = match &call.id {
            Some(id) => valid_tool_call_id(id.as_str()),
            None => true,
        };
        let kind_ok = match &call.kind {
            Some(k) => string_is(k, "function"),
            None => true,
        };
        if call.index as usize >= MAX_TOOL_CALLS || index_seen(calls, i, call.index) || !id_ok
            || !kind_ok {
            proof {
                assert(!tool_delta_meta_ok(calls@, i as int));
                assert(first_tool_failure(secret, calls@, (i + 1) as nat) is Some);
                lemma_first_tool_failure_persists(secret, calls@, (i + 1) as nat, n as nat);
            }
            return Err(
                (
                    String::from_str("invalid provider tool-call delta metadata"),
                    String::from_str("upstream_error"),
                ),
            );
        }
        proof {
            assert(tool_delta_meta_ok(calls@, i as int));
        }
        let function = match &call.function {
            Some(f) => {
                let name = match decrypt_field(session, audit, &f.encrypted_name) {
                    Ok(t) => t,
                    Err(()) => {
                        proof {
                            assert(first_tool_failure(secret, calls@, (i + 1) as nat) is Some);
                            lemma_first_tool_failure_persists(secret, calls@, (i + 1) as nat, n as nat);
                        }
                        return Err(
                            (
                                String::from_str("failed to decrypt provider tool-call name"),
                                String::from_str("decryption_error"),
                            ),
                        );
                    },
                };
                let arguments = match decrypt_field(session, audit, &f.encrypted_arguments) {
                    Ok(t) => t,
                    Err(()) => {
                        proof {
                            assert(first_tool_failure(secret, calls@, (i + 1) as nat) is Some);
                            lemma_first_tool_failure_persists(secret, calls@, (i + 1) as nat, n as nat);
                        }
                        return Err(
                            (
                                String::from_str("failed to decrypt provider tool-call arguments"),
                                String::from_str("decryption_error"),
                            ),
                        );
                    },
                };
                Some(FunctionCallDelta { name, arguments })
            },
            None => None,
        };
        out.push(
            ToolCallDelta {
                index: call.index,
                id: clone_opt(&call.id),
                kind: clone_opt(&call.kind),
                function,
            },
        );
        proof {
            assert(first_tool_failure(secret, calls@, (i + 1) as nat) is None);
            assert(tool_delta_decrypted(secret, calls@[i as int], out@[i as int]));
        }
        i = i + 1;
    }
    Ok(out)
}

/// The answer to a delta event: the first failure ends the stream with its error object (the
/// audit records the failure, after noting any decryption that succeeded before it); otherwise
/// the decrypted delta is sent when it carries anything.
pub open spec fn delta_step(
    t0: StreamTranslator,
    t1: StreamTranslator,
    a0: RequestAudit,
    a1: RequestAudit,
    secret: Seq<u8>,
    content: Option<String>,
    reasoning: Option<String>,
    refusal: Option<String>,
    calls: Seq<RelayEncryptedToolCallDelta>,
    r: StreamStep,
    now_unix_ms: u64,
    duration_ms: u64,
) -> bool {
    let failure = delta_failure(secret, content, reasoning, refusal, calls);
    &&& t1.id == t0.id && t1.model == t0.model && t1.created == t0.created
        && t1.include_usage == t0.include_usage && t1.prompt_tokens == t0.prompt_tokens
        && t1.completion_tokens == t0.completion_tokens
    &&& failure matches Some(f) ==> t1.finished && error_then_done(r.frames@, f.0, f.1, None) && (
    exists|mid: RequestAudit|
        audit_progress(a0, mid) && terminal_step(
            mid,
            a1,
            r.record,
            RequestTerminalStatus::Failed,
            0,
            0,
            None,
            Some(f.1),
            now_unix_ms,
            duration_ms,
        ))
    &&& failure is None ==> t1.finished == t0.finished && r.record is None && audit_progress(a0, a1)
        && if delta_nonempty(content, reasoning, refusal, calls) {
        r.frames@.len() == 1 && stream_chunk(r.frames@[0], t0, None) && (
        r.frames@[0] matches StreamFrame::Chunk(c) && delta_decrypted(
            secret,
            content,
            reasoning,
            refusal,
            calls,
            c.choices@[0].delta,
        ))
    } else {
        r.frames@.len() == 0
    }
}

impl StreamTranslator {
    /// A translator for the stream of response `id` for `model`.
    pub fn new(id: String, model: String, created: u64, include_usage: bool) -> (r: Self)
        ensures
            r.id == id,
            r.model == model,
            r.created == created,
            r.include_usage == include_usage,
            r.prompt_tokens == 0,
            r.completion_tokens == 0,
            !r.finished,
    {
        StreamTranslator {
            id,
            model,
            created,
            include_usage,
            prompt_tokens: 0,
            completion_tokens: 0,
            finished: false,
        }
    }

    /// The opening chunk that announces the assistant role.
    pub fn opening(&self) -> (r: StreamFrame)
        ensures
            stream_chunk(r, *self, None),
            r matches StreamFrame::Chunk(c) && c.choices@[0].delta.role == Some("assistant")
                && c.choices@[0].delta.content is None && c.choices@[0].delta.reasoning_content is None
                && c.choices@[0].delta.refusal is None && c.choices@[0].delta.tool_calls is None,
    {
        let mut delta = Delta::default();
        delta.role = Some("assistant");
        StreamFrame::Chunk(chunk(self.id.as_str(), self.model.as_str(), self.created, delta, None))
    }

    fn fail_step(
        &mut self,
        audit: &mut RequestAudit,
        message: String,
        kind: String,
        now_unix_ms: u64,
        duration_ms: u64,
    ) -> (r: StreamStep)
        ensures
            final(self).finished,
            final(self).id == old(self).id && final(self).model == old(self).model
                && final(self).created == old(self).created
                && final(self).include_usage == old(self).include_usage
                && final(self).prompt_tokens == old(self).prompt_tokens
                && final(self).completion_tokens == old(self).completion_tokens,
            error_then_done(r.frames@, message@, kind@, None),
            terminal_step(
                *old(audit),
                *final(audit),
                r.record,
                RequestTerminalStatus::Failed,
                0,
                0,
                None,
                Some(kind@),
                now_unix_ms,
                duration_ms,
            ),
    {
        self.finished = true;
        let record = audit.fail(kind.clone(), now_unix_ms, duration_ms);
        let mut frames: Vec<StreamFrame> = Vec::new();
        frames.push(StreamFrame::Error(ApiErrorBody { message, kind, code: None }));
        frames.push(StreamFrame::Done);
        StreamStep { frames, record }
    }

    fn on_delta(
        &mut self,
        audit: &mut RequestAudit,
        session: &mut NearSession,
        content: Option<String>,
        reasoning: Option<String>,
        refusal: Option<String>,
        tool_calls: Vec<RelayEncryptedToolCallDelta>,
        now_unix_ms: u64,
        duration_ms: u64,
    ) -> (r: StreamStep)
        ensures
            *final(session) == *old(session),
            delta_step(
                *old(self),
                *final(self),
                *old(audit),
                *final(audit),
                old(session).keypair.x25519_secret@,
                content,
                reasoning,
                refusal,
                tool_calls@,
                r,
                now_unix_ms,
                duration_ms,
            ),
    {
        let ghost secret = session.keypair.x25519_secret@;
        let ghost a0 = *audit;
        let mut delta = Delta::default();
        match decrypt_field(session, audit, &content) {
            Ok(t) => {
                delta.content = t;
            },
            Err(()) => {
                let ghost mid = *audit;
                let r = self.fail_step(
                    audit,
                    String::from_str("failed to decrypt provider delta"),
                    String::from_str("decryption_error"),
                    now_unix_ms,
                    duration_ms,
                );
                assert(audit_progress(a0, mid));
                return r;
            },
        }
        match decrypt_field(session, audit, &reasoning) {
            Ok(t) => {
                delta.reasoning_content = t;
            },
            Err(()) => {
                let ghost mid = *audit;
                let r = self.fail_step(
                    audit,
                    String::from_str("failed to decrypt provider reasoning delta"),
                    String::from_str("decryption_error"),
                    now_unix_ms,
                    duration_ms,
                );
                assert(audit_progress(a0, mid));
                return r;
            },
        }
        match decrypt_field(session, audit, &refusal) {
            Ok(t) => {
                delta.refusal = t;
            },
            Err(()) => {
                let ghost mid = *audit;
                let r = self.fail_step(
                    audit,
                    String::from_str("failed to decrypt provider refusal delta"),
                    String::from_str("decryption_error"),
                    now_unix_ms,
                    duration_ms,
                );
                assert(audit_progress(a0, mid));
                return r;
            },
        }
        if tool_calls.len() > MAX_TOOL_CALLS {
            let ghost mid = *audit;
            let r = self.fail_step(
                audit,
                String::from_str("provider returned too many tool-call deltas"),
                String::from_str("upstream_error"),
                now_unix_ms,
                duration_ms,
            );
            assert(audit_progress(a0, mid));
            return r;
        }
        match translate_tool_calls(session, audit, &tool_calls) {
            Ok(ts) => {
                if ts.len() > 0 {
                    delta.tool_calls = Some(ts);
                }
            },
            Err((message, kind)) => {
                let ghost mid = *audit;
                let r = self.fail_step(audit, message, kind, now_unix_ms, duration_ms);
                assert(audit_progress(a0, mid));
                return r;
            },
        }
        let mut frames: Vec<StreamFrame> = Vec::new();
        if delta.content.is_some() || delta.reasoning_content.is_some() || delta.refusal.is_some()
            || delta.tool_calls.is_some() {
            frames.push(
                StreamFrame::Chunk(
                    chunk(self.id.as_str(), self.model.as_str(), self.created, delta, None),
                ),
            );
        }
        StreamStep { frames, record: None }
    }
}

/// The translator after a step that ended the stream: only `finished` and the usage counters may
/// change.
pub open spec fn stream_ended(t0: StreamTranslator, t1: StreamTranslator) -> bool {
    t1.finished && t1.id == t0.id && t1.model == t0.model && t1.created == t0.created
        && t1.include_usage == t0.include_usage
}

pub open spec fn usage_or_zero(v: Option<u32>) -> u32 {
    match v {
        Some(x) => x,
        None => 0,
    }
}

pub open spec fn finish_or_stop(f: Option<String>) -> Seq<char> {
    match f {
        Some(x) => x@,
        None => "stop"@,
    }
}

/// The usage chunk of this stream: no choices, the reported usage.
pub open spec fn usage_chunk(f: StreamFrame, t: StreamTranslator, p: u32, c: u32, total: u32) -> bool {
    match f {
        StreamFrame::Chunk(u) => u.id@ == t.id@ && u.model@ == t.model@ && u.created == t.created
            && u.object@ == "chat.completion.chunk"@ && u.choices@.len() == 0 && match u.usage {
            Some(x) => x.prompt_tokens == p && x.completion_tokens == c && x.total_tokens == total,
            None => false,
        },
        _ => false,
    }
}

/// The answer to the completion event: an invalid finish reason fails the stream (with the
/// reported usage); otherwise the finish chunk, the usage chunk when asked for, and `[DONE]`, and
/// the request completes.
pub open spec fn completed_step(
    t0: StreamTranslator,
    t1: StreamTranslator,
    a0: RequestAudit,
    a1: RequestAudit,
    usage: crate::relay::RelayUsage,
    finish_reason: Option<String>,
    r: StreamStep,
    now_unix_ms: u64,
    duration_ms: u64,
) -> bool {
    let p = usage_or_zero(usage.prompt_tokens);
    let c = usage_or_zero(usage.completion_tokens);
    let finish = finish_or_stop(finish_reason);
    &&& stream_ended(t0, t1) && t1.prompt_tokens == p && t1.completion_tokens == c
    &&& !is_finish_reason(finish) ==> error_then_done(
        r.frames@,
        "invalid provider finish_reason"@,
        "upstream_error"@,
        None,
    ) && terminal_step(
        a0,
        a1,
        r.record,
        RequestTerminalStatus::Failed,
        p,
        c,
        None,
        Some("upstream_error"@),
        now_unix_ms,
        duration_ms,
    )
    &&& is_finish_reason(finish) ==> r.frames@.len() == (if t0.include_usage {
        3int
    } else {
        2int
    }) && stream_chunk(r.frames@[0], t0, Some(finish)) && (r.frames@[0] matches StreamFrame::Chunk(
        ch,
    ) && empty_delta(ch.choices@[0].delta)) && (t0.include_usage ==> usage_chunk(
        r.frames@[1],
        t0,
        p,
        c,
        usage_or_zero(usage.total_tokens),
    )) && r.frames@.last() is Done
        && terminal_step(
        a0,
        a1,
        r.record,
        RequestTerminalStatus::Completed,
        p,
        c,
        Some(finish),
        None,
        now_unix_ms,
        duration_ms,
    )
}

/// The answer to a step that ends the stream with an error object (or, for the end of the relay
/// stream, with `[DONE]` alone).
pub open spec fn ending_step(
    t0: StreamTranslator,
    t1: StreamTranslator,
    a0: RequestAudit,
    a1: RequestAudit,
    r: StreamStep,
    frame: Option<(Seq<char>, Seq<char>, Option<Seq<char>>)>,
    status: RequestTerminalStatus,
    prompt_tokens: u32,
    completion_tokens: u32,
    kind: Seq<char>,
    now_unix_ms: u64,
    duration_ms: u64,
) -> bool {
    &&& stream_ended(t0, t1) && t1.prompt_tokens == t0.prompt_tokens && t1.completion_tokens
        == t0.completion_tokens
    &&& match frame {
        Some(f) => error_then_done(r.frames@, f.0, f.1, f.2),
        None => r.frames@.len() == 1 && r.frames@[0] is Done,
    }
    &&& terminal_step(
        a0,
        a1,
        r.record,
        status,
        prompt_tokens,
        completion_tokens,
        None,
        Some(kind),
        now_unix_ms,
        duration_ms,
    )
}

pub open spec fn reason_or_cancelled(reason: Option<String>) -> Seq<char> {
    match reason {
        Some(x) => x@,
        None => "cancelled"@,
    }
}

/// The answer to one relay event (or to a stream error), by event.
pub open spec fn event_step(
    t0: StreamTranslator,
    t1: StreamTranslator,
    a0: RequestAudit,
    a1: RequestAudit,
    secret: Seq<u8>,
    event: Result<RelayEvent, CoreError>,
    r: StreamStep,
    now_unix_ms: u64,
    duration_ms: u64,
) -> bool {
    match event {
        Ok(RelayEvent::Delta { content, reasoning, refusal, tool_calls, .. }) => delta_step(
            t0,
            t1,
            a0,
            a1,
            secret,
            content,
            reasoning,
            refusal,
            tool_calls@,
            r,
            now_unix_ms,
            duration_ms,
        ),
        Ok(RelayEvent::Completed { usage, finish_reason }) => completed_step(
            t0,
            t1,
            a0,
            a1,
            usage,
            finish_reason,
            r,
            now_unix_ms,
            duration_ms,
        ),
        Ok(RelayEvent::Cancelled { reason }) => ending_step(
            t0,
            t1,
            a0,
            a1,
            r,
            Some((reason_or_cancelled(reason), "cancelled"@, Some("insufficient_credit"@))),
            RequestTerminalStatus::Cancelled,
            0,
            0,
            "relay_cancelled"@,
            now_unix_ms,
            duration_ms,
        ),
        Ok(RelayEvent::Failed { error }) => ending_step(
            t0,
            t1,
            a0,
            a1,
            r,
            Some((error@, "upstream_error"@, None)),
            RequestTerminalStatus::Failed,
            t0.prompt_tokens,
            t0.completion_tokens,
            "upstream_error"@,
            now_unix_ms,
            duration_ms,
        ),
        Err(e) => ending_step(
            t0,
            t1,
            a0,
            a1,
            r,
            Some((error_text(e), "relay_error"@, None)),
            RequestTerminalStatus::Failed,
            t0.prompt_tokens,
            t0.completion_tokens,
            "relay_error"@,
            now_unix_ms,
            duration_ms,
        ),
    }
}

impl StreamTranslator {
    fn ending(
        &mut self,
        audit: &mut RequestAudit,
        frame: Option<(String, String, Option<String>)>,
        status: RequestTerminalStatus,
        prompt_tokens: u32,
        completion_tokens: u32,
        kind: String,
        now_unix_ms: u64,
        duration_ms: u64,
    ) -> (r: StreamStep)
        requires
            status != RequestTerminalStatus::Completed,
            status == RequestTerminalStatus::Cancelled ==> prompt_tokens == 0 && completion_tokens
                == 0,
        ensures
            ending_step(
                *old(self),
                *final(self),
                *old(audit),
                *final(audit),
                r,
                match frame {
                    Some(f) => Some((f.0@, f.1@, opt_view(f.2))),
                    None => None,
                },
                status,
                prompt_tokens,
                completion_tokens,
                kind@,
                now_unix_ms,
                duration_ms,
            ),
    {
        self.finished = true;
        let record = if status == RequestTerminalStatus::Cancelled {
            audit.cancel(kind, now_unix_ms, duration_ms)
        } else {
            audit.fail_with_usage(kind, prompt_tokens, completion_tokens, now_unix_ms, duration_ms)
        };
        let mut frames: Vec<StreamFrame> = Vec::new();
        match frame {
            Some((message, error_kind, code)) => {
                frames.push(StreamFrame::Error(ApiErrorBody { message, kind: error_kind, code }));
            },
            None => {},
        }
        frames.push(StreamFrame::Done);
        StreamStep { frames, record }
    }

    fn on_completed(
        &mut self,
        audit: &mut RequestAudit,
        usage: crate::relay::RelayUsage,
        finish_reason: Option<String>,
        now_unix_ms: u64,
        duration_ms: u64,
    ) -> (r: StreamStep)
        ensures
            completed_step(
                *old(self),
                *final(self),
                *old(audit),
                *final(audit),
                usage,
                finish_reason,
                r,
                now_unix_ms,
                duration_ms,
            ),
    {
        let p = match usage.prompt_tokens {
            Some(x) => x,
            None => 0,
        };
        let c = match usage.completion_tokens {
            Some(x) => x,
            None => 0,
        };
        let total = match usage.total_tokens {
            Some(x) => x,
            None => 0,
        };
        self.prompt_tokens = p;
        self.completion_tokens = c;
        self.finished = true;
        let finish = match finish_reason {
            Some(f) => f,
            None => String::from_str("stop"),
        };
        let mut frames: Vec<StreamFrame> = Vec::new();
        if validate_finish_reason(finish.as_str()).is_err() {
            let record = audit.fail_with_usage(
                String::from_str("upstream_error"),
                p,
                c,
                now_unix_ms,
                duration_ms,
            );
            frames.push(
                StreamFrame::Error(
                    ApiErrorBody {
                        message: String::from_str("invalid provider finish_reason"),
                        kind: String::from_str("upstream_error"),
                        code: None,
                    },
                ),
            );
            frames.push(StreamFrame::Done);
            return StreamStep { frames, record };
        }
        frames.push(
            StreamFrame::Chunk(
                chunk(
                    self.id.as_str(),
                    self.model.as_str(),
                    self.created,
                    Delta::default(),
                    Some(finish.as_str()),
                ),
            ),
        );
        if self.include_usage {
            frames.push(
                StreamFrame::Chunk(
                    ChatChunk {
                        id: self.id.clone(),
                        object: "chat.completion.chunk",
                        created: self.created,
                        model: self.model.clone(),
                        choices: Vec::new(),
                        usage: Some(
                            Usage { prompt_tokens: p, completion_tokens: c, total_tokens: total },
                        ),
                    },
                ),
            );
        }
        let record = audit.complete(p, c, finish, now_unix_ms, duration_ms);
        frames.push(StreamFrame::Done);
        StreamStep { frames, record }
    }

    /// Answers one relay event, or an error of the relay stream. Once the stream has ended, every
    /// further event is answered with nothing.
    pub fn on_event(
        &mut self,
        audit: &mut RequestAudit,
        session: &mut NearSession,
        event: Result<RelayEvent, CoreError>,
        now_unix_ms: u64,
        duration_ms: u64,
    ) -> (r: StreamStep)
        ensures
            *final(session) == *old(session),
            old(self).finished ==> r.frames@.len() == 0 && r.record is None && *final(self)
                == *old(self) && *final(audit) == *old(audit),
            !old(self).finished ==> event_step(
                *old(self),
                *final(self),
                *old(audit),
                *final(audit),
                old(session).keypair.x25519_secret@,
                event,
                r,
                now_unix_ms,
                duration_ms,
            ),
    {
        if self.finished {
            return StreamStep { frames: Vec::new(), record: None };
        }
        match event {
            Ok(RelayEvent::Delta { content, reasoning, refusal, tool_calls, sequence }) => self.on_delta(
                audit,
                session,
                content,
                reasoning,
                refusal,
                tool_calls,
                now_unix_ms,
                duration_ms,
            ),
            Ok(RelayEvent::Completed { usage, finish_reason }) => self.on_completed(
                audit,
                usage,
                finish_reason,
                now_unix_ms,
                duration_ms,
            ),
            Ok(RelayEvent::Cancelled { reason }) => {
                let message = match reason {
                    Some(m) => m,
                    None => String::from_str("cancelled"),
                };
                self.ending(
                    audit,
                    Some(
                        (
                            message,
                            String::from_str("cancelled"),
                            Some(String::from_str("insufficient_credit")),
                        ),
                    ),
                    RequestTerminalStatus::Cancelled,
                    0,
                    0,
                    String::from_str("relay_cancelled"),
                    now_unix_ms,
                    duration_ms,
                )
            },
            Ok(RelayEvent::Failed { error }) => {
                let p = self.prompt_tokens;
                let c = self.completion_tokens;
                self.ending(
                    audit,
                    Some((error, String::from_str("upstream_error"), None)),
                    RequestTerminalStatus::Failed,
                    p,
                    c,
                    String::from_str("upstream_error"),
                    now_unix_ms,
                    duration_ms,
                )
            },
            Err(e) => {
                let p = self.prompt_tokens;
                let c = self.completion_tokens;
                let message = e.message();
                self.ending(
                    audit,
                    Some((message, String::from_str("relay_error"), None)),
                    RequestTerminalStatus::Failed,
                    p,
                    c,
                    String::from_str("relay_error"),
                    now_unix_ms,
                    duration_ms,
                )
            },
        }
    }

    /// Answers the end of the relay stream without a completion: the request fails with the usage
    /// known so far and the client gets `[DONE]`.
    pub fn on_end(&mut self, audit: &mut RequestAudit, now_unix_ms: u64, duration_ms: u64) -> (r: StreamStep)
        ensures
            old(self).finished ==> r.frames@.len() == 0 && r.record is None && *final(self)
                == *old(self) && *final(audit) == *old(audit),
            !old(self).finished ==> ending_step(
                *old(self),
                *final(self),
                *old(audit),
                *final(audit),
                r,
                None,
                RequestTerminalStatus::Failed,
                old(self).prompt_tokens,
                old(self).completion_tokens,
                "stream_ended_without_completion"@,
                now_unix_ms,
                duration_ms,
            ),
    {
        if self.finished {
            return StreamStep { frames: Vec::new(), record: None };
        }
        let p = self.prompt_tokens;
        let c = self.completion_tokens;
        self.ending(
            audit,
            None,
            RequestTerminalStatus::Failed,
            p,
            c,
            String::from_str("stream_ended_without_completion"),
            now_unix_ms,
            duration_ms,
        )
    }
}

/// Each text field of a relay delta lands in its own field of the chunk sent for it: when the
/// fields present all decrypt and no tool call comes along, the answer to the delta is one chunk
/// whose `content`, `reasoning_content` and `refusal` are the decryptions of the relay's
/// `content`, `reasoning` and `refusal` respectively, each absent exactly when the relay's is
/// (a reasoning-only delta has no refusal, a refusal-only one no reasoning); a delta with none
/// of them is answered with nothing.
pub proof fn law_delta_fields_keep_their_places(
    t0: StreamTranslator,
    t1: StreamTranslator,
    a0: RequestAudit,
    a1: RequestAudit,
    secret: Seq<u8>,
    content: Option<String>,
    reasoning: Option<String>,
    refusal: Option<String>,
    tool_calls: Vec<RelayEncryptedToolCallDelta>,
    sequence: u64,
    r: StreamStep,
    now_unix_ms: u64,
    duration_ms: u64,
)
    requires
        event_step(
            t0,
            t1,
            a0,
            a1,
            secret,
            Ok(RelayEvent::Delta { content, reasoning, refusal, tool_calls, sequence }),
            r,
            now_unix_ms,
            duration_ms,
        ),
        tool_calls@.len() == 0,
        content matches Some(w) ==> decrypted_text(secret, w@) is Some,
        reasoning matches Some(w) ==> decrypted_text(secret, w@) is Some,
        refusal matches Some(w) ==> decrypted_text(secret, w@) is Some,
    ensures
        (content is None && reasoning is None && refusal is None) ==> r.frames@.len() == 0,
        (content is Some || reasoning is Some || refusal is Some) ==> {
            &&& r.frames@.len() == 1
            &&& r.frames@[0] matches StreamFrame::Chunk(c) && c.choices@.len() == 1 && {
                let d = c.choices@[0].delta;
                &&& match content {
                    Some(w) => d.content matches Some(x) && Some(x@) == decrypted_text(secret, w@),
                    None => d.content is None,
                }
                &&& match reasoning {
                    Some(w) => d.reasoning_content matches Some(x) && Some(x@) == decrypted_text(
                        secret,
                        w@,
                    ),
                    None => d.reasoning_content is None,
                }
                &&& match refusal {
                    Some(w) => d.refusal matches Some(x) && Some(x@) == decrypted_text(secret, w@),
                    None => d.refusal is None,
                }
                &&& d.tool_calls is None
            }
        },
{
    assert(first_tool_failure(secret, tool_calls@, 0) is None);
}

} // verus!
