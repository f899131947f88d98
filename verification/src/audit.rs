//! Exactly-once terminal audit recording for one chat-completions request.
//!
//! A request's audit starts when the request is parsed, collects the security facts of the path it
//! takes, and yields exactly one terminal record: the first of complete, fail or cancel wins and
//! every later one is ignored. A request abandoned before any terminal event is recorded as a
//! client cancellation when its response was already streaming, and as incomplete otherwise.

use vstd::prelude::*;

use crate::events::{E2eeAuditReceipt, RequestLogEntry, RequestTerminalStatus, TeeAuditReceipt};
use crate::history::{clone_checks, clone_optional, same_check};
use crate::openai::opt_view;

verus! {

/// The security facts of the path a request took.
#[derive(Debug)]
pub struct RequestSecurityReceipt {
    pub model: String,
    pub provider: String,
    pub e2ee: E2eeAuditReceipt,
    pub tee: TeeAuditReceipt,
}

/// One request's audit state.
#[derive(Debug)]
pub struct RequestAudit {
    pub id: String,
    pub model: String,
    pub provider: String,
    pub stream: bool,
    pub started_at_unix_ms: u64,
    pub e2ee: E2eeAuditReceipt,
    pub tee: TeeAuditReceipt,
    pub terminal: bool,
    pub cancel_on_drop: bool,
}

/// The terminal record of `a` for the given outcome.
pub open spec fn terminal_record(
    a: RequestAudit,
    status: RequestTerminalStatus,
    prompt_tokens: u32,
    completion_tokens: u32,
    finish_reason: Option<Seq<char>>,
    error_kind: Option<Seq<char>>,
    now_unix_ms: u64,
    duration_ms: u64,
    e: RequestLogEntry,
) -> bool {
    &&& e.id@ == a.id@
    &&& e.model@ == a.model@
    &&& e.provider@ == a.provider@
    &&& e.stream == a.stream
    &&& e.status == status
    &&& e.started_at_unix_ms == a.started_at_unix_ms
    &&& e.completed_at_unix_ms == now_unix_ms
    &&& e.prompt_tokens == prompt_tokens
    &&& e.completion_tokens == completion_tokens
    &&& e.duration_ms == duration_ms
    &&& opt_view(e.finish_reason) == finish_reason
    &&& opt_view(e.error_kind) == error_kind
    &&& opt_view(e.e2ee.protocol) == opt_view(a.e2ee.protocol)
    &&& e.e2ee.encryption_version == a.e2ee.encryption_version
    &&& e.e2ee.request_encrypted == a.e2ee.request_encrypted
    &&& e.e2ee.backend_key_accepted == a.e2ee.backend_key_accepted
    &&& e.e2ee.response_decrypted == a.e2ee.response_decrypted
    &&& e.e2ee.ephemeral_client_key == a.e2ee.ephemeral_client_key
    &&& e.tee.verified == a.tee.verified
    &&& e.tee.verified_at_unix_ms == a.tee.verified_at_unix_ms
    &&& e.tee.age_ms == a.tee.age_ms
    &&& opt_view(e.tee.model_key_sha256) == opt_view(a.tee.model_key_sha256)
    &&& opt_view(e.tee.tls_spki_sha256) == opt_view(a.tee.tls_spki_sha256)
    &&& e.tee.checks@.len() == a.tee.checks@.len()
    &&& forall|i: int|
        0 <= i < e.tee.checks@.len() ==> same_check(#[trigger] e.tee.checks@[i], a.tee.checks@[i])
}

/// The audit after a terminal event: only the terminal flag changes.
pub open spec fn ended(before: RequestAudit, after: RequestAudit) -> bool {
    &&& after.terminal
    &&& after.id == before.id
    &&& after.model == before.model
    &&& after.provider == before.provider
    &&& after.stream == before.stream
    &&& after.started_at_unix_ms == before.started_at_unix_ms
    &&& after.e2ee == before.e2ee
    &&& after.tee == before.tee
    &&& after.cancel_on_drop == before.cancel_on_drop
}

/// The outcome of a terminal event: the first one yields its record and ends the audit; any later
/// one yields nothing and changes nothing.
pub open spec fn terminal_step(
    before: RequestAudit,
    after: RequestAudit,
    r: Option<RequestLogEntry>,
    status: RequestTerminalStatus,
    prompt_tokens: u32,
    completion_tokens: u32,
    finish_reason: Option<Seq<char>>,
    error_kind: Option<Seq<char>>,
    now_unix_ms: u64,
    duration_ms: u64,
) -> bool {
    if before.terminal {
        r is None && after == before
    } else {
        ended(before, after) && (r matches Some(e) && terminal_record(
            before,
            status,
            prompt_tokens,
            completion_tokens,
            finish_reason,
            error_kind,
            now_unix_ms,
            duration_ms,
            e,
        ))
    }
}

fn clone_e2ee(e: &E2eeAuditReceipt) -> (r: E2eeAuditReceipt)
    ensures
        opt_view(r.protocol) == opt_view(e.protocol),
        r.encryption_version == e.encryption_version,
        r.request_encrypted == e.request_encrypted,
        r.backend_key_accepted == e.backend_key_accepted,
        r.response_decrypted == e.response_decrypted,
        r.ephemeral_client_key == e.ephemeral_client_key,
{
    E2eeAuditReceipt {
        protocol: clone_optional(&e.protocol),
        encryption_version: e.encryption_version,
        request_encrypted: e.request_encrypted,
        backend_key_accepted: e.backend_key_accepted,
        response_decrypted: e.response_decrypted,
        ephemeral_client_key: e.ephemeral_client_key,
    }
}

impl RequestAudit {
    /// The audit of a request that was just parsed; its provider is not known yet.
    pub fn start(id: String, requested_model: String, stream: bool, now_unix_ms: u64) -> (r: Self)
        ensures
            r.id@ == id@,
            r.model@ == requested_model@,
            r.provider@ == "unknown"@,
            r.stream == stream,
            r.started_at_unix_ms == now_unix_ms,
            !r.terminal,
            !r.cancel_on_drop,
            !r.e2ee.request_encrypted,
            !r.e2ee.backend_key_accepted,
            !r.e2ee.response_decrypted,
            !r.tee.verified,
    {
        RequestAudit {
            id,
            model: requested_model,
            provider: String::from_str("unknown"),
            stream,
            started_at_unix_ms: now_unix_ms,
            e2ee: E2eeAuditReceipt::default(),
            tee: TeeAuditReceipt::default(),
            terminal: false,
            cancel_on_drop: false,
        }
    }

    pub fn set_security(&mut self, receipt: RequestSecurityReceipt)
        ensures
            final(self).model == receipt.model,
            final(self).provider == receipt.provider,
            final(self).e2ee == receipt.e2ee,
            final(self).tee == receipt.tee,
            final(self).id == old(self).id,
            final(self).stream == old(self).stream,
            final(self).started_at_unix_ms == old(self).started_at_unix_ms,
            final(self).terminal == old(self).terminal,
            final(self).cancel_on_drop == old(self).cancel_on_drop,
    {
        self.model = receipt.model;
        self.provider = receipt.provider;
        self.e2ee = receipt.e2ee;
        self.tee = receipt.tee;
    }

    pub fn backend_key_accepted(&mut self)
        ensures
            final(self).e2ee.backend_key_accepted,
            final(self).e2ee.response_decrypted == old(self).e2ee.response_decrypted,
            final(self).id == old(self).id,
            final(self).model == old(self).model,
            final(self).provider == old(self).provider,
            final(self).stream == old(self).stream,
            final(self).started_at_unix_ms == old(self).started_at_unix_ms,
            final(self).tee == old(self).tee,
            final(self).e2ee.protocol == old(self).e2ee.protocol,
            final(self).e2ee.encryption_version == old(self).e2ee.encryption_version,
            final(self).e2ee.request_encrypted == old(self).e2ee.request_encrypted,
            final(self).e2ee.ephemeral_client_key == old(self).e2ee.ephemeral_client_key,
            final(self).terminal == old(self).terminal,
            final(self).cancel_on_drop == old(self).cancel_on_drop,
    {
        self.e2ee.backend_key_accepted = true;
    }

    pub fn response_decrypted(&mut self)
        ensures
            final(self).e2ee.response_decrypted,
            final(self).e2ee.backend_key_accepted == old(self).e2ee.backend_key_accepted,
            final(self).id == old(self).id,
            final(self).model == old(self).model,
            final(self).provider == old(self).provider,
            final(self).stream == old(self).stream,
            final(self).started_at_unix_ms == old(self).started_at_unix_ms,
            final(self).tee == old(self).tee,
            final(self).e2ee.protocol == old(self).e2ee.protocol,
            final(self).e2ee.encryption_version == old(self).e2ee.encryption_version,
            final(self).e2ee.request_encrypted == old(self).e2ee.request_encrypted,
            final(self).e2ee.ephemeral_client_key == old(self).e2ee.ephemeral_client_key,
            final(self).terminal == old(self).terminal,
            final(self).cancel_on_drop == old(self).cancel_on_drop,
    {
        self.e2ee.response_decrypted = true;
    }

    /// From now on, abandoning the request counts as a client cancellation.
    pub fn cancel_if_dropped(&mut self)
        ensures
            final(self).cancel_on_drop,
            final(self).terminal == old(self).terminal,
            final(self).e2ee == old(self).e2ee,
            final(self).id == old(self).id,
            final(self).model == old(self).model,
            final(self).provider == old(self).provider,
            final(self).stream == old(self).stream,
            final(self).started_at_unix_ms == old(self).started_at_unix_ms,
            final(self).tee == old(self).tee,
            final(self).e2ee.protocol == old(self).e2ee.protocol,
            final(self).e2ee.encryption_version == old(self).e2ee.encryption_version,
            final(self).e2ee.request_encrypted == old(self).e2ee.request_encrypted,
            final(self).e2ee.ephemeral_client_key == old(self).e2ee.ephemeral_client_key,
    {
        self.cancel_on_drop = true;
    }

    fn finish(
        &mut self,
        status: RequestTerminalStatus,
        prompt_tokens: u32,
        completion_tokens: u32,
        finish_reason: Option<String>,
        error_kind: Option<String>,
        now_unix_ms: u64,
        duration_ms: u64,
    ) -> (r: Option<RequestLogEntry>)
        ensures
            terminal_step(
                *old(self),
                *final(self),
                r,
                status,
                prompt_tokens,
                completion_tokens,
                opt_view(finish_reason),
                opt_view(error_kind),
                now_unix_ms,
                duration_ms,
            ),
    {
        if self.terminal {
            return None;
        }
        self.terminal = true;
        let tee = TeeAuditReceipt {
            verified: self.tee.verified,
            verified_at_unix_ms: self.tee.verified_at_unix_ms,
            age_ms: self.tee.age_ms,
            model_key_sha256: clone_optional(&self.tee.model_key_sha256),
            tls_spki_sha256: clone_optional(&self.tee.tls_spki_sha256),
            checks: clone_checks(&self.tee.checks),
        };
        Some(
            RequestLogEntry {
                id: self.id.clone(),
                model: self.model.clone(),
                provider: self.provider.clone(),
                stream: self.stream,
                status,
                started_at_unix_ms: self.started_at_unix_ms,
                completed_at_unix_ms: now_unix_ms,
                prompt_tokens,
                completion_tokens,
                duration_ms,
                finish_reason,
                error_kind,
                e2ee: clone_e2ee(&self.e2ee),
                tee,
            },
        )
    }

    /// The request completed with the provider's usage and finish reason.
    pub fn complete(
        &mut self,
        prompt_tokens: u32,
        completion_tokens: u32,
        finish_reason: String,
        now_unix_ms: u64,
        duration_ms: u64,
    ) -> (r: Option<RequestLogEntry>)
        ensures
            terminal_step(
                *old(self),
                *final(self),
                r,
                RequestTerminalStatus::Completed,
                prompt_tokens,
                completion_tokens,
                Some(finish_reason@),
                None,
                now_unix_ms,
                duration_ms,
            ),
    {
        self.finish(
            RequestTerminalStatus::Completed,
            prompt_tokens,
            completion_tokens,
            Some(finish_reason),
            None,
            now_unix_ms,
            duration_ms,
        )
    }

    /// The request failed before any usage was known.
    pub fn fail(&mut self, error_kind: String, now_unix_ms: u64, duration_ms: u64) -> (r: Option<
        RequestLogEntry,
    >)
        ensures
            terminal_step(
                *old(self),
                *final(self),
                r,
                RequestTerminalStatus::Failed,
                0,
                0,
                None,
                Some(error_kind@),
                now_unix_ms,
                duration_ms,
            ),
    {
        self.finish(RequestTerminalStatus::Failed, 0, 0, None, Some(error_kind), now_unix_ms, duration_ms)
    }

    /// The request failed after the provider reported usage.
    pub fn fail_with_usage(
        &mut self,
        error_kind: String,
        prompt_tokens: u32,
        completion_tokens: u32,
        now_unix_ms: u64,
        duration_ms: u64,
    ) -> (r: Option<RequestLogEntry>)
        ensures
            terminal_step(
                *old(self),
                *final(self),
                r,
                RequestTerminalStatus::Failed,
                prompt_tokens,
                completion_tokens,
                None,
                Some(error_kind@),
                now_unix_ms,
                duration_ms,
            ),
    {
        self.finish(
            RequestTerminalStatus::Failed,
            prompt_tokens,
            completion_tokens,
            None,
            Some(error_kind),
            now_unix_ms,
            duration_ms,
        )
    }

    pub fn cancel(&mut self, error_kind: String, now_unix_ms: u64, duration_ms: u64) -> (r: Option<
        RequestLogEntry,
    >)
        ensures
            terminal_step(
                *old(self),
                *final(self),
                r,
                RequestTerminalStatus::Cancelled,
                0,
                0,
                None,
                Some(error_kind@),
                now_unix_ms,
                duration_ms,
            ),
    {
        self.finish(
            RequestTerminalStatus::Cancelled,
            0,
            0,
            None,
            Some(error_kind),
            now_unix_ms,
            duration_ms,
        )
    }

    /// The record of a request abandoned now: a client cancellation once its response streams, an
    /// incomplete failure before; nothing when it already ended.
    pub fn abandon(&mut self, now_unix_ms: u64, duration_ms: u64) -> (r: Option<RequestLogEntry>)
        ensures
            old(self).cancel_on_drop ==> terminal_step(
                *old(self),
                *final(self),
                r,
                RequestTerminalStatus::Cancelled,
                0,
                0,
                None,
                Some("client_disconnected"@),
                now_unix_ms,
                duration_ms,
            ),
            !old(self).cancel_on_drop ==> terminal_step(
                *old(self),
                *final(self),
                r,
                RequestTerminalStatus::Failed,
                0,
                0,
                None,
                Some("request_incomplete"@),
                now_unix_ms,
                duration_ms,
            ),
    {
        if self.cancel_on_drop {
            self.cancel(String::from_str("client_disconnected"), now_unix_ms, duration_ms)
        } else {
            self.fail(String::from_str("request_incomplete"), now_unix_ms, duration_ms)
        }
    }
}

/// Exactly once: after any terminal event, no further event yields a record or changes the audit.
pub proof fn law_terminal_exactly_once(
    before: RequestAudit,
    after: RequestAudit,
    r: Option<RequestLogEntry>,
    status: RequestTerminalStatus,
    prompt_tokens: u32,
    completion_tokens: u32,
    finish_reason: Option<Seq<char>>,
    error_kind: Option<Seq<char>>,
    now_unix_ms: u64,
    duration_ms: u64,
)
    requires
        before.terminal,
        terminal_step(
            before,
            after,
            r,
            status,
            prompt_tokens,
            completion_tokens,
            finish_reason,
            error_kind,
            now_unix_ms,
            duration_ms,
        ),
    ensures
        r is None,
        after == before,
        after.terminal,
{
}

} // verus!
