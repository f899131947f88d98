//! The metadata-only request history: the newest hundred request records, oldest first. It is
//! authoritative while the proxy runs; storing it is the caller's concern and can never alter
//! routing or relax a check.

use vstd::prelude::*;

use std::path::PathBuf;

use crate::events::{
    E2eeAuditReceipt, RequestLogEntry, RequestTerminalStatus, TeeAuditReceipt,
};
use crate::openai::opt_view;
use crate::provider::VerificationCheck;

verus! {

pub const REQUEST_HISTORY_CAP: usize = 100;

pub const REQUEST_HISTORY_VERSION: u8 = 1;

/// The stored form of the history.
#[derive(Debug)]
pub struct HistoryDocument {
    pub version: u8,
    pub entries: Vec<RequestLogEntry>,
}

pub open spec fn same_check(a: VerificationCheck, b: VerificationCheck) -> bool {
    a.id@ == b.id@ && a.label@ == b.label@ && a.status@ == b.status@ && a.ok == b.ok
}

/// Two records with equal contents.
pub open spec fn same_entry(a: RequestLogEntry, b: RequestLogEntry) -> bool {
    &&& a.id@ == b.id@
    &&& a.model@ == b.model@
    &&& a.provider@ == b.provider@
    &&& a.stream == b.stream
    &&& a.status == b.status
    &&& a.started_at_unix_ms == b.started_at_unix_ms
    &&& a.completed_at_unix_ms == b.completed_at_unix_ms
    &&& a.prompt_tokens == b.prompt_tokens
    &&& a.completion_tokens == b.completion_tokens
    &&& a.duration_ms == b.duration_ms
    &&& opt_view(a.finish_reason) == opt_view(b.finish_reason)
    &&& opt_view(a.error_kind) == opt_view(b.error_kind)
    &&& opt_view(a.e2ee.protocol) == opt_view(b.e2ee.protocol)
    &&& a.e2ee.encryption_version == b.e2ee.encryption_version
    &&& a.e2ee.request_encrypted == b.e2ee.request_encrypted
    &&& a.e2ee.backend_key_accepted == b.e2ee.backend_key_accepted
    &&& a.e2ee.response_decrypted == b.e2ee.response_decrypted
    &&& a.e2ee.ephemeral_client_key == b.e2ee.ephemeral_client_key
    &&& a.tee.verified == b.tee.verified
    &&& a.tee.verified_at_unix_ms == b.tee.verified_at_unix_ms
    &&& a.tee.age_ms == b.tee.age_ms
    &&& opt_view(a.tee.model_key_sha256) == opt_view(b.tee.model_key_sha256)
    &&& opt_view(a.tee.tls_spki_sha256) == opt_view(b.tee.tls_spki_sha256)
    &&& a.tee.checks@.len() == b.tee.checks@.len()
    &&& forall|i: int|
        0 <= i < a.tee.checks@.len() ==> same_check(#[trigger] a.tee.checks@[i], b.tee.checks@[i])
}

/// Element-wise equal contents.
pub open spec fn same_entries(a: Seq<RequestLogEntry>, b: Seq<RequestLogEntry>) -> bool {
    a.len() == b.len() && forall|i: int| 0 <= i < a.len() ==> same_entry(#[trigger] a[i], b[i])
}

/// The last `n` records of `s` (all of them when there are fewer).
pub open spec fn newest(s: Seq<RequestLogEntry>, n: nat) -> Seq<RequestLogEntry> {
    if s.len() <= n {
        s
    } else {
        s.subrange(s.len() - n, s.len() as int)
    }
}

/// The history after recording `e`: appended at the end, the oldest record dropped when full.
pub open spec fn pushed(s: Seq<RequestLogEntry>, e: RequestLogEntry) -> Seq<RequestLogEntry> {
    if s.len() == REQUEST_HISTORY_CAP {
        s.drop_first().push(e)
    } else {
        s.push(e)
    }
}

/// A stored history survives a restart: the records of a document that `push` handed back,
/// loaded again, are those the history held, in order.
pub proof fn law_reload_restores_history(
    stored: Seq<RequestLogEntry>,
    held: Seq<RequestLogEntry>,
)
    requires
        same_entries(stored, held),
        held.len() <= REQUEST_HISTORY_CAP,
    ensures
        same_entries(newest(stored, REQUEST_HISTORY_CAP as nat), held),
{
}

/// Recording keeps at most a hundred records, the new one last and the others in their order.
pub proof fn law_push_keeps_newest_hundred(s: Seq<RequestLogEntry>, e: RequestLogEntry)
    requires
        s.len() <= REQUEST_HISTORY_CAP,
    ensures
        pushed(s, e).len() <= REQUEST_HISTORY_CAP,
        pushed(s, e).last() == e,
        pushed(s, e) == newest(s.push(e), REQUEST_HISTORY_CAP as nat),
{
    if s.len() == REQUEST_HISTORY_CAP {
        assert(s.drop_first().push(e) =~= s.push(e).subrange(1, s.len() + 1int));
    }
}

pub open spec fn min_nat(a: nat, b: nat) -> nat {
    if a <= b {
        a
    } else {
        b
    }
}

pub fn clone_optional(s: &Option<String>) -> (r: Option<String>)
    ensures
        opt_view(r) == opt_view(*s),
{
    match s {
        Some(v) => Some(v.clone()),
        None => None,
    }
}

pub fn clone_checks(checks: &Vec<VerificationCheck>) -> (r: Vec<VerificationCheck>)
    ensures
        r@.len() == checks@.len(),
        forall|i: int| 0 <= i < checks@.len() ==> same_check(#[trigger] r@[i], checks@[i]),
{
    let mut out: Vec<VerificationCheck> = Vec::new();
    let mut i: usize = 0;
    while i < checks.len()
        invariant
            i <= checks@.len(),
            out@.len() == i,
            forall|j: int| 0 <= j < i ==> same_check(#[trigger] out@[j], checks@[j]),
        decreases checks@.len() - i,
    {
        out.push(checks[i].clone());
        i = i + 1;
    }
    out
}

/// A copy of a record.
pub fn clone_entry(e: &RequestLogEntry) -> (r: RequestLogEntry)
    ensures
        same_entry(r, *e),
{
    RequestLogEntry {
        id: e.id.clone(),
        model: e.model.clone(),
        provider: e.provider.clone(),
        stream: e.stream,
        status: e.status,
        started_at_unix_ms: e.started_at_unix_ms,
        completed_at_unix_ms: e.completed_at_unix_ms,
        prompt_tokens: e.prompt_tokens,
        completion_tokens: e.completion_tokens,
        duration_ms: e.duration_ms,
        finish_reason: clone_optional(&e.finish_reason),
        error_kind: clone_optional(&e.error_kind),
        e2ee: E2eeAuditReceipt {
            protocol: clone_optional(&e.e2ee.protocol),
            encryption_version: e.e2ee.encryption_version,
            request_encrypted: e.e2ee.request_encrypted,
            backend_key_accepted: e.e2ee.backend_key_accepted,
            response_decrypted: e.e2ee.response_decrypted,
            ephemeral_client_key: e.e2ee.ephemeral_client_key,
        },
        tee: TeeAuditReceipt {
            verified: e.tee.verified,
            verified_at_unix_ms: e.tee.verified_at_unix_ms,
            age_ms: e.tee.age_ms,
            model_key_sha256: clone_optional(&e.tee.model_key_sha256),
            tls_spki_sha256: clone_optional(&e.tee.tls_spki_sha256),
            checks: clone_checks(&e.tee.checks),
        },
    }
}

/// The newest hundred request records, oldest first, and where they are stored (if anywhere).
#[derive(Debug)]
pub struct RequestHistory {
    path: Option<PathBuf>,
    entries: Vec<RequestLogEntry>,
}

impl RequestHistory {
    /// The records, oldest first.
    pub closed spec fn view(self) -> Seq<RequestLogEntry> {
        self.entries@
    }

    /// Whether the history is stored.
    pub closed spec fn persistent(self) -> bool {
        self.path is Some
    }

    /// Where the history is stored, if it is.
    pub closed spec fn location(self) -> Option<PathBuf> {
        self.path
    }

    #[verifier::type_invariant]
    spec fn bounded(self) -> bool {
        self.entries@.len() <= REQUEST_HISTORY_CAP
    }

    /// An empty history that is never stored.
    pub fn memory_only() -> (r: Self)
        ensures
            r.view().len() == 0,
            !r.persistent(),
            r.location() is None,
    {
        RequestHistory { path: None, entries: Vec::new() }
    }

    /// The history stored at `path`, given the document read from it (`None` when there is no
    /// readable document). A document of another version is ignored; otherwise its newest hundred
    /// records are kept, in order.
    pub fn load(path: PathBuf, document: Option<HistoryDocument>) -> (r: Self)
        ensures
            r.persistent(),
            r.location() == Some(path),
            r.view().len() <= REQUEST_HISTORY_CAP,
            match document {
                Some(d) => if d.version == REQUEST_HISTORY_VERSION {
                    r.view() == newest(d.entries@, REQUEST_HISTORY_CAP as nat)
                } else {
                    r.view().len() == 0
                },
                None => r.view().len() == 0,
            },
    {
        match document {
            Some(d) => {
                if d.version != REQUEST_HISTORY_VERSION {
                    return RequestHistory { path: Some(path), entries: Vec::new() };
                }
                let mut all = d.entries;
                let n = all.len();
                if n <= REQUEST_HISTORY_CAP {
                    return RequestHistory { path: Some(path), entries: all };
                }
                let kept = all.split_off(n - REQUEST_HISTORY_CAP);
                proof {
                    assert(kept@ =~= newest(d.entries@, REQUEST_HISTORY_CAP as nat));
                }
                RequestHistory { path: Some(path), entries: kept }
            },
            None => RequestHistory { path: Some(path), entries: Vec::new() },
        }
    }

    /// Records `entry`, dropping the oldest record when the history is full. Returns the document
    /// to store when the history is stored, and `None` for a memory-only history.
    pub fn push(&mut self, entry: RequestLogEntry) -> (r: Option<HistoryDocument>)
        ensures
            final(self).view() == pushed(old(self).view(), entry),
            final(self).view().len() <= REQUEST_HISTORY_CAP,
            final(self).persistent() == old(self).persistent(),
            final(self).location() == old(self).location(),
            r is Some <==> old(self).persistent(),
            r matches Some(d) ==> d.version == REQUEST_HISTORY_VERSION && same_entries(
                d.entries@,
                final(self).view(),
            ),
    {
        proof {
            use_type_invariant(&*self);
        }
        let mut entries: Vec<RequestLogEntry> = Vec::new();
        std::mem::swap(&mut entries, &mut self.entries);
        let ghost before = entries@;
        if entries.len() == REQUEST_HISTORY_CAP {
            entries.remove(0);
            proof {
                assert(entries@ =~= before.drop_first());
            }
        }
        entries.push(entry);
        self.entries = entries;
        match &self.path {
            Some(_) => Some(HistoryDocument { version: REQUEST_HISTORY_VERSION, entries: self.copy_all() }),
            None => None,
        }
    }

    fn copy_all(&self) -> (r: Vec<RequestLogEntry>)
        ensures
            same_entries(r@, self.view()),
    {
        let mut out: Vec<RequestLogEntry> = Vec::new();
        let mut i: usize = 0;
        while i < self.entries.len()
            invariant
                i <= self.entries@.len(),
                out@.len() == i,
                forall|j: int| 0 <= j < i ==> same_entry(#[trigger] out@[j], self.entries@[j]),
            decreases self.entries@.len() - i,
        {
            out.push(clone_entry(&self.entries[i]));
            i = i + 1;
        }
        out
    }

    /// Up to `limit` (at most a hundred) records, newest first.
    pub fn recent(&self, limit: usize) -> (r: Vec<RequestLogEntry>)
        ensures
            r@.len() == min_nat(min_nat(limit as nat, REQUEST_HISTORY_CAP as nat), self.view().len()),
            forall|i: int|
                0 <= i < r@.len() ==> same_entry(
                    #[trigger] r@[i],
                    self.view()[self.view().len() - 1 - i],
                ),
    {
        let take = if limit < REQUEST_HISTORY_CAP {
            limit
        } else {
            REQUEST_HISTORY_CAP
        };
        let n = self.entries.len();
        let mut out: Vec<RequestLogEntry> = Vec::new();
        let mut i: usize = 0;
        while i < take && i < n
            invariant
                n == self.entries@.len(),
                i <= n,
                i <= take,
                take as nat == min_nat(limit as nat, REQUEST_HISTORY_CAP as nat),
                out@.len() == i,
                forall|j: int| 0 <= j < i ==> same_entry(#[trigger] out@[j], self.entries@[n - 1 - j]),
            decreases n - i,
        {
            out.push(clone_entry(&self.entries[n - 1 - i]));
            i = i + 1;
        }
        out
    }

    /// The stored location, if the history is stored.
    pub fn path(&self) -> (r: &Option<PathBuf>)
        ensures
            r is Some <==> self.persistent(),
            *r == self.location(),
    {
        &self.path
    }
}

} // verus!
