//! A Phala ACI v2 session: the client's ephemeral key, the eligible verified workers, field
//! encryption under request AAD, and decryption gated on the gateway's signed receipt.

use vstd::prelude::*;

use crate::crypto::{random_bytes, x25519_public, x25519_public_key};
use crate::attestation::random_nonce_hex;
use crate::error::CoreError;
use crate::gateway::{
    required_text, clone_state, key_index_from, upsert_key, opt_state_view, session_index_from, session_view, sessions_view,
    state_view, PhalaAttestationState, PhalaWorkerSession, StateView,
};
use crate::hex::{array32, array64, decode_hex, encode_hex, hex_decode, hex_encode};
use crate::phala::{
    aes_gcm_limit, decode_32, decode_32_result, decrypt_field, encrypt_field, exact_plaintext_body, field_open_error,
    field_plaintext, has_unsupported_fields, member_value, plaintext_body, request_aad, request_aad_text,
    response_aad, response_aad_text, seals_field, sha256_digest, PhalaCipher,
};
use crate::crypto::{
    ed25519_signature_valid, ed25519_verify, edwards_point_valid, edwards_to_x25519, sha256,
};
use crate::provider::{DecryptedProviderCompletion, PlainProviderRequest, VerifiedModel};
use crate::relay::RelayCompletion;
use crate::frames::{
    byte_views, crlf_normalized, crlf_to_lf, frame_data, frame_data_of, frames_of, split_frames,
};
use crate::openai::opt_view;
use crate::attestation::{base64_standard, decode_base64_standard};
use crate::gateway::required_str;
use crate::json::string_views;
use crate::text::{concat2, decimal, decimal_string, has_prefix, string_from_utf8, lowercase, starts_with, str_eq, string_is, to_lowercase};
use crate::value::{
    canonical_object_without, json_error_text, json_parsed, key_less, key_lt, object_canonical,
    pair_views, parse_json, without_key, JsonValue,
};

verus! {

// ---- which workers a session offers ----

/// Worker `a` is offered before worker `b`: later expiry first, then by id.
pub open spec fn offered_before(a: (Seq<char>, u64), b: (Seq<char>, u64)) -> bool {
    a.1 > b.1 || (a.1 == b.1 && key_lt(a.0, b.0))
}

pub open spec fn insert_offered(m: (Seq<char>, u64), s: Seq<(Seq<char>, u64)>) -> Seq<(Seq<char>, u64)>
    decreases s.len(),
{
    if s.len() == 0 {
        seq![m]
    } else if offered_before(m, s[0]) {
        seq![m] + s
    } else {
        seq![s[0]] + insert_offered(m, s.drop_first())
    }
}

/// The workers in offer order (a stable sort).
pub open spec fn sort_offered(ms: Seq<(Seq<char>, u64)>) -> Seq<(Seq<char>, u64)>
    decreases ms.len(),
{
    if ms.len() == 0 {
        Seq::empty()
    } else {
        insert_offered(ms.last(), sort_offered(ms.drop_last()))
    }
}

pub open spec fn offered_position(m: (Seq<char>, u64), s: Seq<(Seq<char>, u64)>) -> int
    decreases s.len(),
{
    if s.len() == 0 {
        0
    } else if offered_before(m, s[0]) {
        0
    } else {
        1 + offered_position(m, s.drop_first())
    }
}

proof fn lemma_insert_offered(m: (Seq<char>, u64), s: Seq<(Seq<char>, u64)>)
    ensures
        0 <= offered_position(m, s) <= s.len(),
        insert_offered(m, s) == s.take(offered_position(m, s)) + seq![m] + s.skip(
            offered_position(m, s),
        ),
        forall|j: int| 0 <= j < offered_position(m, s) ==> !offered_before(m, #[trigger] s[j]),
        offered_position(m, s) < s.len() ==> offered_before(m, s[offered_position(m, s)]),
    decreases s.len(),
{
    if s.len() > 0 && !offered_before(m, s[0]) {
        lemma_insert_offered(m, s.drop_first());
        let p = offered_position(m, s.drop_first());
        assert(s.take(p + 1) =~= seq![s[0]] + s.drop_first().take(p));
        assert(s.skip(p + 1) =~= s.drop_first().skip(p));
        assert forall|j: int| 0 <= j < p + 1 implies !offered_before(m, #[trigger] s[j]) by {
            if j > 0 {
                assert(s[j] == s.drop_first()[j - 1]);
            }
        }
    } else {
        assert(s.take(0) =~= Seq::<(Seq<char>, u64)>::empty());
        assert(s.skip(0) =~= s);
    }
}

pub open spec fn offer_view(v: Seq<(String, u64)>) -> Seq<(Seq<char>, u64)> {
    v.map_values(|p: (String, u64)| (p.0@, p.1))
}

/// The ids of the workers a session offers: at most 128, in offer order.
pub open spec fn eligible_ids(sessions: Seq<(Seq<char>, u64, u64)>) -> Seq<Seq<char>> {
    let sorted = sort_offered(sessions.map_values(|w: (Seq<char>, u64, u64)| (w.0, w.2)));
    let n = if sorted.len() < 128 {
        sorted.len()
    } else {
        128
    };
    sorted.take(n as int).map_values(|p: (Seq<char>, u64)| p.0)
}

fn offered_first(a: &(String, u64), b: &(String, u64)) -> (r: bool)
    ensures
        r == offered_before((a.0@, a.1), (b.0@, b.1)),
{
    a.1 > b.1 || (a.1 == b.1 && key_less(a.0.as_str(), b.0.as_str()))
}

fn eligible_session_ids(sessions: &Vec<PhalaWorkerSession>) -> (r: Vec<String>)
    ensures
        string_views(r@) == eligible_ids(sessions_view(sessions@)),
{
    let ghost all = sessions_view(sessions@).map_values(|w: (Seq<char>, u64, u64)| (w.0, w.2));
    let mut out: Vec<(String, u64)> = Vec::new();
    let mut i: usize = 0;
    proof {
        assert(all.take(0) =~= Seq::<(Seq<char>, u64)>::empty());
        assert(offer_view(out@) =~= Seq::<(Seq<char>, u64)>::empty());
    }
    while i < sessions.len()
        invariant
            all == sessions_view(sessions@).map_values(|w: (Seq<char>, u64, u64)| (w.0, w.2)),
            i <= sessions@.len(),
            offer_view(out@) == sort_offered(all.take(i as int)),
        decreases sessions@.len() - i,
    {
        let ghost m = all[i as int];
        let ghost before = offer_view(out@);
        let item = (sessions[i].session_id.clone(), sessions[i].expires_at);
        proof {
            assert(m == (item.0@, item.1));
        }
        let mut p: usize = 0;
        while p < out.len() && !offered_first(&item, &out[p])
            invariant
                p <= out@.len(),
                (item.0@, item.1) == m,
                before == offer_view(out@),
                forall|j: int| 0 <= j < p ==> !offered_before(m, #[trigger] before[j]),
            decreases out@.len() - p,
        {
            p = p + 1;
        }
        proof {
            lemma_insert_offered(m, before);
            let q = offered_position(m, before);
            if p < q {
                assert(offered_before(m, before[p as int]));
            }
            if q < p {
                assert(!offered_before(m, before[q]));
            }
            assert(p == q);
        }
        out.insert(p, item);
        proof {
            assert(all.take(i + 1).drop_last() =~= all.take(i as int));
            assert(all.take(i + 1).last() == m);
            assert(offer_view(out@) =~= before.take(p as int) + seq![m] + before.skip(p as int));
        }
        i = i + 1;
    }
    proof {
        assert(all.take(sessions@.len() as int) =~= all);
    }
    let n = if out.len() < 128 {
        out.len()
    } else {
        128
    };
    let mut ids: Vec<String> = Vec::new();
    let mut k: usize = 0;
    while k < n
        invariant
            n <= out@.len(),
            k <= n,
            string_views(ids@) == offer_view(out@).take(k as int).map_values(
                |p: (Seq<char>, u64)| p.0,
            ),
        decreases n - k,
    {
        let ghost before = string_views(ids@);
        ids.push(out[k].0.clone());
        proof {
            assert(string_views(ids@) =~= before.push(out@[k as int].0@));
            assert(offer_view(out@).take(k + 1).map_values(|p: (Seq<char>, u64)| p.0)
                =~= offer_view(out@).take(k as int).map_values(|p: (Seq<char>, u64)| p.0).push(
                out@[k as int].0@,
            ));
        }
        k = k + 1;
    }
    ids
}

// ---- the session ----

/// The context the relay forwards with a Phala request so the gateway can bind its receipt.
#[derive(Debug)]
pub struct RequestContext {
    pub nonce: String,
    pub timestamp: u64,
    pub session_ids: Vec<String>,
    pub keyset_digest: String,
    pub request_body_hash: String,
}

/// One Phala request: the client's ephemeral X25519 key, the workers it accepts, its nonce and
/// timestamp, and what it has received so far.
#[derive(Debug)]
pub struct PhalaSession {
    state: PhalaAttestationState,
    client_secret: [u8; 32],
    client_public_key_hex: String,
    eligible_session_ids: Vec<String>,
    nonce: String,
    timestamp: u64,
    plaintext_request_hash: Option<String>,
    streamed_content: String,
    streamed_reasoning: String,
}

impl PhalaSession {
    pub closed spec fn state(self) -> StateView {
        state_view(self.state)
    }

    pub closed spec fn secret(self) -> Seq<u8> {
        self.client_secret@
    }

    pub closed spec fn eligible(self) -> Seq<Seq<char>> {
        string_views(self.eligible_session_ids@)
    }

    pub closed spec fn nonce(self) -> Seq<char> {
        self.nonce@
    }

    pub closed spec fn timestamp(self) -> u64 {
        self.timestamp
    }

    pub closed spec fn request_hash(self) -> Option<Seq<char>> {
        match self.plaintext_request_hash {
            Some(h) => Some(h@),
            None => None,
        }
    }

    pub closed spec fn streamed(self) -> (Seq<char>, Seq<char>) {
        (self.streamed_content@, self.streamed_reasoning@)
    }

    /// The session's published key is the X25519 public key of its secret.
    pub closed spec fn wf(self) -> bool {
        self.client_public_key_hex@ == hex_encode(x25519_public(self.client_secret@))
    }

    pub fn client_public_key_hex(&self) -> (r: Option<String>)
        requires
            self.wf(),
        ensures
            r matches Some(k) && k@ == hex_encode(x25519_public(self.secret())),
    {
        Some(self.client_public_key_hex.clone())
    }

    /// Ready while it has verified workers and receipt keys and is at most 300 s old.
    pub fn is_ready(&self, now: u64) -> (r: bool)
        ensures
            r == (self.state().4.len() > 0 && self.state().3.len() > 0 && (if self.timestamp()
                + 300 > u64::MAX {
                u64::MAX as int
            } else {
                self.timestamp() + 300
            }) >= now),
    {
        let horizon = if self.timestamp > u64::MAX - 300 {
            u64::MAX
        } else {
            self.timestamp + 300
        };
        self.state.worker_sessions.len() > 0 && self.state.receipt_public_keys.len() > 0 && horizon
            >= now
    }

    pub fn supports_streaming(&self) -> (r: bool)
        ensures
            r,
    {
        true
    }

    /// Whole-message encryption is refused: every Phala field has its own AAD.
    pub fn encrypt(&mut self, plaintext: &[u8]) -> (r: Result<String, CoreError>)
        ensures
            r matches Err(CoreError::Provider(m)) && m@
                == "Phala encryption requires field-specific AAD"@,
            *final(self) == *old(self),
    {
        Err(CoreError::Provider(String::from_str("Phala encryption requires field-specific AAD")))
    }

    /// Whole-message decryption is refused: responses open only behind a verified receipt.
    pub fn decrypt(&mut self, wire: &str) -> (r: Result<Vec<u8>, CoreError>)
        ensures
            r matches Err(CoreError::Provider(m)) && m@
                == "Phala responses require receipt-gated completion decryption"@,
            *final(self) == *old(self),
    {
        Err(
            CoreError::Provider(
                String::from_str("Phala responses require receipt-gated completion decryption"),
            ),
        )
    }

    /// Seals a request field to the gateway under the field's request AAD.
    pub fn encrypt_field(&mut self, plaintext: &[u8], field: &str) -> (r: Result<String, CoreError>)
        ensures
            *final(self) == *old(self),
            r matches Ok(w) ==> crate::hex::hex_decode(crate::text::strip_0x(old(self).state().2))
                matches Some(k) && seals_field(
                k,
                w@,
                plaintext@,
                vstd::utf8::encode_utf8(
                    request_aad_text(
                        old(self).state().0,
                        old(self).nonce(),
                        old(self).timestamp(),
                        field@,
                    ),
                ),
            ),
            crate::phala::decode_32_result("gateway X25519 key"@, old(self).state().2) is Ok
                && plaintext@.len() <= aes_gcm_limit() && vstd::utf8::encode_utf8(
                request_aad_text(
                    old(self).state().0,
                    old(self).nonce(),
                    old(self).timestamp(),
                    field@,
                ),
            ).len() <= aes_gcm_limit() ==> r is Ok,
    {
        let aad = request_aad(self.state.model.as_str(), self.nonce.as_str(), self.timestamp, field);
        encrypt_field(plaintext, self.state.gateway_public_key_hex.as_str(), aad.as_slice())
    }

    /// Computes and remembers the hash of the exact plaintext request body the gateway's receipt
    /// must bind, and returns the context the relay forwards.
    pub fn prepare_request_context(&mut self, request: &PlainProviderRequest) -> (r: Result<
        RequestContext,
        CoreError,
    >)
        ensures
            request.model@ != old(self).state().0 ==> (r matches Err(CoreError::Provider(m)) && m@
                == "Phala plaintext request model mismatch"@ && *final(self) == *old(self)),
            request.model@ == old(self).state().0 && has_unsupported_fields(*request) ==> (r matches Err(
                CoreError::Provider(m),
            ) && m@
                == "Phala ACI tool and extended-message fields are unavailable until their v2 AAD contract is implemented"@
                && *final(self) == *old(self)),
            request.model@ == old(self).state().0 && !has_unsupported_fields(*request) && (
            request.sampling matches Some(ms) && member_value(ms@, "logit_bias"@) is Some) ==> (r matches Err(
                CoreError::Provider(m),
            ) && m@ == "Phala does not support logit_bias"@ && *final(self) == *old(self)),
            request.model@ == old(self).state().0 && !has_unsupported_fields(*request) && !(
            request.sampling matches Some(ms) && member_value(ms@, "logit_bias"@) is Some) ==> r is Ok,
            r matches Ok(c) ==> {
                let h = "sha256:"@ + hex_encode(
                    sha256(
                        vstd::utf8::encode_utf8(plaintext_body(*request, old(self).eligible())),
                    ),
                );
                &&& request.model@ == old(self).state().0
                &&& final(self).request_hash() == Some(h)
                &&& c.request_body_hash@ == h
                &&& c.nonce@ == old(self).nonce()
                &&& c.timestamp == old(self).timestamp()
                &&& string_views(c.session_ids@) == old(self).eligible()
                &&& c.keyset_digest@ == old(self).state().1
                &&& final(self).state() == old(self).state()
                &&& final(self).secret() == old(self).secret()
                &&& final(self).eligible() == old(self).eligible()
                &&& final(self).nonce() == old(self).nonce()
                &&& final(self).timestamp() == old(self).timestamp()
                &&& final(self).streamed() == old(self).streamed()
                &&& final(self).wf() == old(self).wf()
            },
            r is Err ==> *final(self) == *old(self),
    {
        if !str_eq(request.model.as_str(), self.state.model.as_str()) {
            return Err(CoreError::Provider(String::from_str("Phala plaintext request model mismatch")));
        }
        let body = exact_plaintext_body(request, self.eligible_session_ids.as_slice())?;
        let hash = sha256_digest(body.as_slice());
        self.plaintext_request_hash = Some(hash.clone());
        let mut ids: Vec<String> = Vec::new();
        let mut i: usize = 0;
        while i < self.eligible_session_ids.len()
            invariant
                i <= self.eligible_session_ids@.len(),
                string_views(ids@) == string_views(self.eligible_session_ids@).take(i as int),
            decreases self.eligible_session_ids@.len() - i,
        {
            let ghost before = string_views(ids@);
            let id = self.eligible_session_ids[i].clone();
            ids.push(id);
            proof {
                assert(string_views(ids@) =~= before.push(id@));
                assert(string_views(ids@) =~= string_views(self.eligible_session_ids@).take(
                    i + 1,
                ));
            }
            i = i + 1;
        }
        proof {
            assert(string_views(self.eligible_session_ids@).take(
                self.eligible_session_ids@.len() as int,
            ) =~= string_views(self.eligible_session_ids@));
        }
        Ok(
            RequestContext {
                nonce: self.nonce.clone(),
                timestamp: self.timestamp,
                session_ids: ids,
                keyset_digest: self.state.keyset_digest.clone(),
                request_body_hash: hash,
            },
        )
    }
}

/// Whether the verified evidence's hard expiry has passed.
pub open spec fn evidence_expired(v: VerifiedModel, now: u64) -> bool {
    match v.expires_at_unix {
        Some(e) => e <= now,
        None => false,
    }
}

impl PhalaCipher {
    /// Opens a session on a freshly verified Phala model: a new X25519 key, a new nonce, the
    /// current time, and the verified workers in offer order. Refused without verified Phala
    /// state, when the state's gateway key is not the model key, when the evidence has expired,
    /// and when no worker is offered.
    pub fn new_session(&self, verified: &VerifiedModel, now: u64) -> (r: Result<PhalaSession, CoreError>)
        ensures
            verified.provider_state is None ==> (r matches Err(CoreError::Provider(m)) && m@
                == "missing fresh locally verified Phala state"@),
            verified.provider_state matches Some(st) ==> {
                &&& st.gateway_public_key_hex@ != verified.model_public_key_hex@ ==> (r matches Err(
                    CoreError::Provider(m),
                ) && m@ == "verified Phala gateway key mismatch"@)
                &&& st.gateway_public_key_hex@ == verified.model_public_key_hex@
                    && evidence_expired(*verified, now) ==> (r matches Err(
                    CoreError::Provider(m),
                ) && m@ == "verified Phala evidence has expired"@)
                &&& st.gateway_public_key_hex@ == verified.model_public_key_hex@ && !evidence_expired(
                    *verified,
                    now,
                ) && eligible_ids(
                    sessions_view(st.worker_sessions@),
                ).len() == 0 ==> (r matches Err(CoreError::Provider(m)) && m@
                    == "Phala has no preverified worker sessions"@)
                &&& st.gateway_public_key_hex@ == verified.model_public_key_hex@ && !evidence_expired(
                    *verified,
                    now,
                ) && eligible_ids(
                    sessions_view(st.worker_sessions@),
                ).len() > 0 ==> (r matches Ok(s) && s.wf() && s.state() == state_view(st)
                    && s.eligible() == eligible_ids(sessions_view(st.worker_sessions@))
                    && s.timestamp() == now && s.request_hash() is None && s.streamed() == (
                    Seq::<char>::empty(),
                    Seq::<char>::empty(),
                ) && s.secret().len() == 32 && (exists|b: Seq<u8>|
                    b.len() == 32 && s.nonce() == hex_encode(b)))
            },
    {
        let st = match &verified.provider_state {
            Some(s) => s,
            None => {
                return Err(CoreError::Provider(String::from_str("missing fresh locally verified Phala state")));
            },
        };
        if !str_eq(st.gateway_public_key_hex.as_str(), verified.model_public_key_hex.as_str()) {
            return Err(CoreError::Provider(String::from_str("verified Phala gateway key mismatch")));
        }
        match verified.expires_at_unix {
            Some(e) => {
                if e <= now {
                    return Err(CoreError::Provider(String::from_str("verified Phala evidence has expired")));
                }
            },
            None => {},
        }
        let eligible = eligible_session_ids(&st.worker_sessions);
        if eligible.len() == 0 {
            return Err(CoreError::Provider(String::from_str("Phala has no preverified worker sessions")));
        }
        let secret = array32(random_bytes(32).as_slice());
        let public = x25519_public_key(&secret);
        let public_hex = encode_hex(&public);
        let nonce = random_nonce_hex();
        Ok(
            PhalaSession {
                state: clone_state(st),
                client_secret: secret,
                client_public_key_hex: public_hex,
                eligible_session_ids: eligible,
                nonce,
                timestamp: now,
                plaintext_request_hash: None,
                streamed_content: String::new(),
                streamed_reasoning: String::new(),
            },
        )
    }
}


// ---- the gateway's signed receipt ----

/// The first object in `events` from `i` on whose `type` is `t`.
pub open spec fn event_from(events: Seq<JsonValue>, t: Seq<char>, i: int) -> Option<JsonValue>
    decreases events.len() - i,
{
    if i < 0 || i >= events.len() {
        None
    } else if events[i].members() is Some && events[i].field_text("type"@) == Some(t) {
        Some(events[i])
    } else {
        event_from(events, t, i + 1)
    }
}

/// The receipt's event of type `t`.
pub open spec fn receipt_event(receipt: JsonValue, t: Seq<char>) -> Option<JsonValue> {
    match receipt.field("event_log"@) {
        Some(v) => match v.items() {
            Some(es) => event_from(es, t, 0),
            None => None,
        },
        None => None,
    }
}

/// The value of key `k` in a list of unique keys.
pub open spec fn key_lookup(ps: Seq<(Seq<char>, Seq<char>)>, k: Seq<char>) -> Option<Seq<char>> {
    match key_index_from(ps, k, 0) {
        Some(i) => Some(ps[i].1),
        None => None,
    }
}

/// The worker session with id `id`.
pub open spec fn session_lookup(ss: Seq<(Seq<char>, u64, u64)>, id: Seq<char>) -> Option<
    (Seq<char>, u64, u64),
> {
    match session_index_from(ss, id, 0) {
        Some(i) => Some(ss[i]),
        None => None,
    }
}

/// The worker a receipt cites: its `session_id` without an `as_` prefix, lowercased.
pub open spec fn cited_session(upstream: JsonValue) -> Seq<char> {
    let raw = match upstream.field_text("session_id"@) {
        Some(t) => t,
        None => Seq::empty(),
    };
    lowercase(
        if has_prefix(raw, "as_"@) {
            raw.subrange(3, raw.len() as int)
        } else {
            raw
        },
    )
}

pub open spec fn field_bool(v: JsonValue, key: Seq<char>) -> Option<bool> {
    match v.field(key) {
        Some(b) => b.boolean(),
        None => None,
    }
}

/// The gateway required and obtained a verified model worker.
pub open spec fn upstream_ok(u: JsonValue) -> bool {
    &&& u.field_text("result"@) == Some("verified"@)
    &&& field_bool(u, "required"@) == Some(true)
    &&& match u.field_text("model_id"@) {
        Some(m) => m.len() > 0,
        None => false,
    }
}

/// The receipt's events must bind the local request hash and the encrypted response bytes, and
/// cite an eligible, locally verified worker within whose lifetime the response was served.
pub open spec fn binding_failure(
    state: StateView,
    eligible: Seq<Seq<char>>,
    receipt: JsonValue,
    expected: Seq<char>,
    response: Seq<u8>,
) -> Option<Seq<char>> {
    match receipt_event(receipt, "request.received"@) {
        None => Some("Phala receipt omitted request.received"@),
        Some(req) => if req.field_text("body_hash"@) != Some(expected) {
            Some("Phala receipt does not bind the exact local request"@)
        } else {
            match receipt_event(receipt, "response.returned"@) {
                None => Some("Phala receipt omitted response.returned"@),
                Some(resp) => if resp.field_text("body_hash"@) != Some(
                    "sha256:"@ + hex_encode(sha256(response)),
                ) {
                    Some("Phala receipt does not bind the encrypted response bytes"@)
                } else {
                    match receipt_event(receipt, "upstream.verified"@) {
                        None => Some("Phala receipt omitted upstream.verified"@),
                        Some(up) => if !upstream_ok(up) {
                            Some("Phala did not require a verified model worker"@)
                        } else if !eligible.contains(cited_session(up)) {
                            Some(
                                "Phala receipt cites a worker outside the preverified eligible set"@,
                            )
                        } else {
                            match session_lookup(state.4, cited_session(up)) {
                                None => Some(
                                    "Phala receipt cites a worker not preverified locally"@,
                                ),
                                Some(w) => match receipt.field_unsigned("served_at"@) {
                                    None => Some("Phala receipt served_at is invalid"@),
                                    Some(t) => if !(w.1 <= t && t <= w.2) {
                                        Some(
                                            "Phala receipt falls outside the worker session lifetime"@,
                                        )
                                    } else {
                                        None
                                    },
                                },
                            }
                        },
                    }
                },
            }
        },
    }
}

/// The receipt must be an `aci/1` receipt for this keyset and model, signed (over its canonical
/// JSON without the signature) by an attested receipt key; then its bindings must hold.
pub open spec fn receipt_failure(
    state: StateView,
    eligible: Seq<Seq<char>>,
    receipt: JsonValue,
    expected: Seq<char>,
    response: Seq<u8>,
) -> Option<Seq<char>> {
    if receipt.field_text("api_version"@) != Some("aci/1"@) {
        Some("Phala receipt is not aci/1"@)
    } else if receipt.field_text("workload_keyset_digest"@) != Some(state.1) || receipt.field_text(
        "model"@,
    ) != Some(state.0) {
        Some("Phala receipt identity mismatch"@)
    } else {
        match receipt.field_text("key_id"@) {
            None => Some("Phala receipt key id is missing"@),
            Some(kid) => match key_lookup(state.3, kid) {
                None => Some("Phala receipt key was not attested"@),
                Some(pk_hex) => match receipt.field_text("signature"@) {
                    None => Some("Phala receipt signature is missing"@),
                    Some(sig_hex) => match hex_decode(sig_hex) {
                        None => Some("Phala receipt signature is invalid"@),
                        Some(sig) => if sig.len() != 64 {
                            Some("Phala receipt signature is invalid"@)
                        } else {
                            match decode_32_result("receipt public key"@, pk_hex) {
                                Err(_) => Some("Phala receipt public key is invalid"@),
                                Ok(pk) => if !edwards_point_valid(pk) {
                                    Some("Phala receipt public key is invalid"@)
                                } else {
                                    match object_canonical(
                                        without_key(receipt.members()->0, "signature"@),
                                    ) {
                                        None => Some("Phala receipt canonicalization failed"@),
                                        Some(c) => if !ed25519_signature_valid(
                                            pk,
                                            vstd::utf8::encode_utf8(c),
                                            sig,
                                        ) {
                                            Some("Phala receipt signature is invalid"@)
                                        } else {
                                            binding_failure(state, eligible, receipt, expected, response)
                                        },
                                    }
                                },
                            }
                        },
                    },
                },
            },
        }
    }
}

fn provider_err(message: &str) -> (r: CoreError)
    ensures
        r matches CoreError::Provider(m) && m@ == message@,
{
    CoreError::Provider(String::from_str(message))
}

fn find_event<'a>(receipt: &'a JsonValue, t: &str) -> (r: Option<&'a JsonValue>)
    ensures
        match receipt_event(*receipt, t@) {
            Some(e) => r matches Some(x) && *x == e,
            None => r is None,
        },
{
    proof {
        reveal_strlit("event_log");
        reveal_strlit("type");
    }
    let events = match receipt.get("event_log") {
        Some(v) => match v.as_array() {
            Some(a) => a,
            None => {
                return None;
            },
        },
        None => {
            return None;
        },
    };
    let mut i: usize = 0;
    while i < events.len()
        invariant
            i <= events@.len(),
            receipt_event(*receipt, t@) == event_from(events@, t@, 0),
            event_from(events@, t@, i as int) == event_from(events@, t@, 0),
        decreases events@.len() - i,
    {
        let e = &events[i];
        let hit = e.as_object().is_some() && match e.get_str("type") {
            Some(x) => str_eq(x.as_str(), t),
            None => false,
        };
        if hit {
            return Some(e);
        }
        i = i + 1;
    }
    None
}

fn lookup_key<'a>(ps: &'a Vec<(String, String)>, k: &str) -> (r: Option<&'a String>)
    ensures
        match key_lookup(pair_views(ps@), k@) {
            Some(v) => r matches Some(x) && x@ == v,
            None => r is None,
        },
{
    let ghost pv = pair_views(ps@);
    let mut i: usize = 0;
    while i < ps.len()
        invariant
            pv == pair_views(ps@),
            i <= ps@.len(),
            key_index_from(pv, k@, i as int) == key_index_from(pv, k@, 0),
        decreases ps@.len() - i,
    {
        if str_eq(ps[i].0.as_str(), k) {
            proof {
                assert(key_index_from(pv, k@, i as int) == Some(i as int));
            }
            return Some(&ps[i].1);
        }
        i = i + 1;
    }
    None
}

fn lookup_session<'a>(ss: &'a Vec<PhalaWorkerSession>, id: &str) -> (r: Option<&'a PhalaWorkerSession>)
    ensures
        match session_lookup(sessions_view(ss@), id@) {
            Some(w) => r matches Some(x) && session_view(*x) == w,
            None => r is None,
        },
{
    let ghost sv = sessions_view(ss@);
    let mut i: usize = 0;
    while i < ss.len()
        invariant
            sv == sessions_view(ss@),
            i <= ss@.len(),
            session_index_from(sv, id@, i as int) == session_index_from(sv, id@, 0),
        decreases ss@.len() - i,
    {
        if str_eq(ss[i].session_id.as_str(), id) {
            proof {
                assert(session_index_from(sv, id@, i as int) == Some(i as int));
            }
            return Some(&ss[i]);
        }
        i = i + 1;
    }
    None
}

fn contains_id(ids: &Vec<String>, id: &str) -> (r: bool)
    ensures
        r == string_views(ids@).contains(id@),
{
    let mut i: usize = 0;
    while i < ids.len()
        invariant
            i <= ids@.len(),
            forall|j: int| 0 <= j < i ==> string_views(ids@)[j] != id@,
        decreases ids@.len() - i,
    {
        if str_eq(ids[i].as_str(), id) {
            proof {
                assert(string_views(ids@)[i as int] == id@);
            }
            return true;
        }
        i = i + 1;
    }
    false
}

fn cited_session_of(upstream: &JsonValue) -> (r: String)
    ensures
        r@ == cited_session(*upstream),
{
    proof {
        reveal_strlit("session_id");
        reveal_strlit("as_");
        reveal_strlit("");
    }
    let raw: &str = match upstream.get_str("session_id") {
        Some(t) => t.as_str(),
        None => {
            proof {
                assert(""@ =~= Seq::<char>::empty());
            }
            ""
        },
    };
    if starts_with(raw, "as_") {
        let n = raw.unicode_len();
        to_lowercase(raw.substring_char(3, n))
    } else {
        to_lowercase(raw)
    }
}

fn upstream_verified(u: &JsonValue) -> (r: bool)
    ensures
        r == upstream_ok(*u),
{
    proof {
        reveal_strlit("result");
        reveal_strlit("verified");
        reveal_strlit("required");
        reveal_strlit("model_id");
    }
    let result_ok = match u.get_str("result") {
        Some(x) => str_eq(x.as_str(), "verified"),
        None => false,
    };
    let required_ok = match u.get("required") {
        Some(b) => b.as_bool() == Some(true),
        None => false,
    };
    let model_ok = match u.get_str("model_id") {
        Some(m) => m.unicode_len() > 0,
        None => false,
    };
    result_ok && required_ok && model_ok
}

impl PhalaSession {
    fn check_bindings(&self, receipt: &JsonValue, expected: &str, response: &[u8]) -> (r: Result<
        (),
        CoreError,
    >)
        ensures
            match binding_failure(self.state(), self.eligible(), *receipt, expected@, response@) {
                Some(m) => r matches Err(CoreError::Provider(x)) && x@ == m,
                None => r is Ok,
            },
    {
        proof {
            reveal_strlit("body_hash");
            reveal_strlit("served_at");
            reveal_strlit("request.received");
            reveal_strlit("response.returned");
            reveal_strlit("upstream.verified");
        }
        let req = match find_event(receipt, "request.received") {
            Some(e) => e,
            None => {
                return Err(provider_err("Phala receipt omitted request.received"));
            },
        };
        let req_ok = match req.get_str("body_hash") {
            Some(h) => str_eq(h.as_str(), expected),
            None => false,
        };
        if !req_ok {
            return Err(provider_err("Phala receipt does not bind the exact local request"));
        }
        let resp = match find_event(receipt, "response.returned") {
            Some(e) => e,
            None => {
                return Err(provider_err("Phala receipt omitted response.returned"));
            },
        };
        let response_hash = sha256_digest(response);
        let resp_ok = match resp.get_str("body_hash") {
            Some(h) => str_eq(h.as_str(), response_hash.as_str()),
            None => false,
        };
        if !resp_ok {
            return Err(provider_err("Phala receipt does not bind the encrypted response bytes"));
        }
        let up = match find_event(receipt, "upstream.verified") {
            Some(e) => e,
            None => {
                return Err(provider_err("Phala receipt omitted upstream.verified"));
            },
        };
        if !upstream_verified(up) {
            return Err(provider_err("Phala did not require a verified model worker"));
        }
        let sid = cited_session_of(up);
        if !contains_id(&self.eligible_session_ids, sid.as_str()) {
            return Err(provider_err("Phala receipt cites a worker outside the preverified eligible set"));
        }
        let worker = match lookup_session(&self.state.worker_sessions, sid.as_str()) {
            Some(w) => w,
            None => {
                return Err(provider_err("Phala receipt cites a worker not preverified locally"));
            },
        };
        let served_at = match receipt.get_u64("served_at") {
            Some(t) => t,
            None => {
                return Err(provider_err("Phala receipt served_at is invalid"));
            },
        };
        if !(worker.established_at <= served_at && served_at <= worker.expires_at) {
            return Err(provider_err("Phala receipt falls outside the worker session lifetime"));
        }
        Ok(())
    }

    fn check_receipt(&self, receipt: &JsonValue, expected: &str, response: &[u8]) -> (r: Result<
        (),
        CoreError,
    >)
        requires
            receipt.members() is Some,
        ensures
            match receipt_failure(self.state(), self.eligible(), *receipt, expected@, response@) {
                Some(m) => r matches Err(CoreError::Provider(x)) && x@ == m,
                None => r is Ok,
            },
    {
        proof {
            reveal_strlit("api_version");
            reveal_strlit("aci/1");
            reveal_strlit("workload_keyset_digest");
            reveal_strlit("model");
            reveal_strlit("key_id");
            reveal_strlit("signature");
            reveal_strlit("receipt public key");
        }
        let version_ok = match receipt.get_str("api_version") {
            Some(v) => str_eq(v.as_str(), "aci/1"),
            None => false,
        };
        if !version_ok {
            return Err(provider_err("Phala receipt is not aci/1"));
        }
        let digest_ok = match receipt.get_str("workload_keyset_digest") {
            Some(d) => str_eq(d.as_str(), self.state.keyset_digest.as_str()),
            None => false,
        };
        let model_ok = match receipt.get_str("model") {
            Some(m) => str_eq(m.as_str(), self.state.model.as_str()),
            None => false,
        };
        if !digest_ok || !model_ok {
            return Err(provider_err("Phala receipt identity mismatch"));
        }
        let kid = match receipt.get_str("key_id") {
            Some(k) => k,
            None => {
                return Err(provider_err("Phala receipt key id is missing"));
            },
        };
        let pk_hex = match lookup_key(&self.state.receipt_public_keys, kid.as_str()) {
            Some(k) => k,
            None => {
                return Err(provider_err("Phala receipt key was not attested"));
            },
        };
        let sig_hex = match receipt.get_str("signature") {
            Some(s) => s,
            None => {
                return Err(provider_err("Phala receipt signature is missing"));
            },
        };
        let sig = match decode_hex(sig_hex.as_str()) {
            Ok(b) => b,
            Err(_) => {
                return Err(provider_err("Phala receipt signature is invalid"));
            },
        };
        if sig.len() != 64 {
            return Err(provider_err("Phala receipt signature is invalid"));
        }
        let sig64 = array64(sig.as_slice());
        proof {
            assert(sig@.subrange(0, 64) =~= sig@);
        }
        let pk = match decode_32("receipt public key", pk_hex.as_str()) {
            Ok(k) => k,
            Err(_) => {
                return Err(provider_err("Phala receipt public key is invalid"));
            },
        };
        let members = match receipt.as_object() {
            Some(m) => m,
            None => {
                return Err(provider_err("Phala receipt canonicalization failed"));
            },
        };
        let unsigned = match canonical_object_without(members, "signature") {
            Some(c) => c,
            None => {
                if edwards_to_x25519(&pk).is_none() {
                    return Err(provider_err("Phala receipt public key is invalid"));
                }
                return Err(provider_err("Phala receipt canonicalization failed"));
            },
        };
        match ed25519_verify(&pk, unsigned.as_str().as_bytes(), &sig64) {
            None => {
                return Err(provider_err("Phala receipt public key is invalid"));
            },
            Some(false) => {
                return Err(provider_err("Phala receipt signature is invalid"));
            },
            Some(true) => {},
        }
        self.check_bindings(receipt, expected, response)
    }
}


// ---- receipt-gated completion decryption ----

/// The encrypted response bytes of a completion whose proof carries a receipt that passes, or the
/// message of the first failed check.
pub open spec fn completion_proof_result(s: PhalaSession, attached: Option<JsonValue>) -> Result<
    Seq<u8>,
    Seq<char>,
> {
    match s.request_hash() {
        None => Err("Phala request context was not prepared"@),
        Some(h) => match attached {
            Some(p) if p.members() is Some => match p.field_text("response_body_base64"@) {
                None => Err("Phala proof omitted encrypted response bytes"@),
                Some(b64) => match base64_standard(b64) {
                    None => Err("Phala encrypted response base64 is invalid"@),
                    Some(bytes) => match p.field("receipt"@) {
                        None => Err("Phala proof omitted its receipt"@),
                        Some(rc) => if rc.members() is None {
                            Err("Phala receipt is not an object"@)
                        } else {
                            match receipt_failure(s.state(), s.eligible(), rc, h, bytes) {
                                Some(m) => Err(m),
                                None => Ok(bytes),
                            }
                        },
                    },
                },
            },
            _ => Err("Phala completion omitted its proof"@),
        },
    }
}

/// The AAD of a response field.
pub open spec fn response_field_aad(s: PhalaSession, id: Seq<char>, field: Seq<char>) -> Seq<u8> {
    vstd::utf8::encode_utf8(response_aad_text(s.state().0, s.nonce(), s.timestamp(), id, field))
}

/// A message member of the completion, opened: absent or empty stays `None`.
pub open spec fn member_open(s: PhalaSession, msg: JsonValue, id: Seq<char>, index: u64, member: Seq<char>) -> Result<
    Option<Seq<char>>,
    Seq<char>,
> {
    match msg.field_text(member) {
        None => Ok(None),
        Some(w) => if w.len() == 0 {
            Ok(None)
        } else {
            let aad = response_field_aad(
                s,
                id,
                "choices."@ + decimal(index as nat) + ".message."@ + member,
            );
            match field_plaintext(s.secret(), w, aad) {
                Some(t) => Ok(Some(t)),
                None => Err(field_open_error(s.secret(), w, aad)),
            }
        },
    }
}

/// The completion's first choice, when it is an object.
pub open spec fn first_choice(resp: JsonValue) -> Option<JsonValue> {
    match resp.field("choices"@) {
        Some(c) => match c.items() {
            Some(items) => if items.len() > 0 && items[0].members() is Some {
                Some(items[0])
            } else {
                None
            },
            None => None,
        },
        None => None,
    }
}

/// The decrypted content and reasoning (from `reasoning_content`, else `reasoning`) of the
/// verified response bytes.
pub open spec fn completion_output(s: PhalaSession, bytes: Seq<u8>) -> Result<
    (Option<Seq<char>>, Option<Seq<char>>),
    Seq<char>,
> {
    match json_parsed(bytes) {
        None => Err("Phala response JSON is invalid: "@ + json_error_text(bytes)),
        Some(resp) => if resp.members() is None {
            Err("Phala response is not an object"@)
        } else {
            match required_text(resp, "id"@) {
                None => Err("Phala response id is missing"@),
                Some(id) => match first_choice(resp) {
                    None => Err("Phala response has no choice"@),
                    Some(choice) => {
                        let index = match choice.field_unsigned("index"@) {
                            Some(i) => i,
                            None => 0u64,
                        };
                        match choice.field("message"@) {
                            Some(msg) if msg.members() is Some => match member_open(
                                s,
                                msg,
                                id,
                                index,
                                "content"@,
                            ) {
                                Err(m) => Err(m),
                                Ok(content) => match member_open(
                                    s,
                                    msg,
                                    id,
                                    index,
                                    "reasoning_content"@,
                                ) {
                                    Err(m) => Err(m),
                                    Ok(Some(r)) => Ok((content, Some(r))),
                                    Ok(None) => match member_open(s, msg, id, index, "reasoning"@) {
                                        Err(m) => Err(m),
                                        Ok(reasoning) => if content is None && reasoning is None {
                                            Err("Phala completion contained no encrypted output"@)
                                        } else {
                                            Ok((content, reasoning))
                                        },
                                    },
                                },
                            },
                            _ => Err("Phala response has no message"@),
                        }
                    },
                }
            }
        }
    }
}

impl PhalaSession {
    fn open_member(&self, msg: &JsonValue, id: &str, index: u64, member: &str) -> (r: Result<
        Option<String>,
        CoreError,
    >)
        ensures
            match member_open(*self, *msg, id@, index, member@) {
                Ok(o) => r matches Ok(x) && opt_view(x) == o,
                Err(m) => r matches Err(CoreError::Provider(x)) && x@ == m,
            },
    {
        let wire = match msg.get_str(member) {
            Some(w) => w,
            None => {
                return Ok(None);
            },
        };
        if wire.unicode_len() == 0 {
            return Ok(None);
        }
        let mut field = concat2("choices.", decimal_string(index).as_str());
        field.append(".message.");
        field.append(member);
        let aad = response_aad(self.state.model.as_str(), self.nonce.as_str(), self.timestamp, id, field.as_str());
        let text = decrypt_field(wire.as_str(), &self.client_secret, aad.as_slice())?;
        Ok(Some(text))
    }

    fn completion_bytes(&self, attached: &Option<JsonValue>) -> (r: Result<Vec<u8>, CoreError>)
        ensures
            match completion_proof_result(*self, *attached) {
                Ok(b) => r matches Ok(x) && x@ == b,
                Err(m) => r matches Err(CoreError::Provider(x)) && x@ == m,
            },
    {
        proof {
            reveal_strlit("response_body_base64");
            reveal_strlit("receipt");
        }
        let expected = match &self.plaintext_request_hash {
            Some(h) => h,
            None => {
                return Err(provider_err("Phala request context was not prepared"));
            },
        };
        let p = match attached {
            Some(p) => if p.as_object().is_some() {
                p
            } else {
                return Err(provider_err("Phala completion omitted its proof"));
            },
            None => {
                return Err(provider_err("Phala completion omitted its proof"));
            },
        };
        let b64 = match p.get_str("response_body_base64") {
            Some(b) => b,
            None => {
                return Err(provider_err("Phala proof omitted encrypted response bytes"));
            },
        };
        let bytes = match decode_base64_standard(b64.as_str()) {
            Ok(b) => b,
            Err(_) => {
                return Err(provider_err("Phala encrypted response base64 is invalid"));
            },
        };
        let receipt = match p.get("receipt") {
            Some(r) => r,
            None => {
                return Err(provider_err("Phala proof omitted its receipt"));
            },
        };
        if receipt.as_object().is_none() {
            return Err(provider_err("Phala receipt is not an object"));
        }
        self.check_receipt(receipt, expected.as_str(), bytes.as_slice())?;
        Ok(bytes)
    }

    /// Decrypts a completion only after its proof's receipt is verified: the receipt must bind
    /// the prepared request hash and the exact encrypted response bytes, and cite an eligible,
    /// verified worker. The session itself is unchanged.
    pub fn decrypt_verified_completion(&mut self, completion: &RelayCompletion) -> (r: Result<
        Option<DecryptedProviderCompletion>,
        CoreError,
    >)
        ensures
            *final(self) == *old(self),
            match completion_proof_result(*old(self), completion.proof) {
                Err(m) => r matches Err(CoreError::Provider(x)) && x@ == m,
                Ok(bytes) => match completion_output(*old(self), bytes) {
                    Err(m) => r matches Err(CoreError::Provider(x)) && x@ == m,
                    Ok((c, rc)) => r matches Ok(Some(d)) && opt_view(d.content) == c && opt_view(
                        d.reasoning_content,
                    ) == rc && d.refusal is None,
                },
            },
    {
        proof {
            reveal_strlit("id");
            reveal_strlit("choices");
            reveal_strlit("index");
            reveal_strlit("message");
            reveal_strlit("content");
            reveal_strlit("reasoning_content");
            reveal_strlit("reasoning");
            reveal_strlit("Phala ");
            reveal_strlit("response id");
            reveal_strlit(" is missing");
        }
        let bytes = self.completion_bytes(&completion.proof)?;
        let resp = match parse_json(bytes.as_slice()) {
            Ok(v) => v,
            Err(e) => {
                return Err(CoreError::Provider(concat2("Phala response JSON is invalid: ", e.as_str())));
            },
        };
        if resp.as_object().is_none() {
            return Err(provider_err("Phala response is not an object"));
        }
        let id = match required_str(&resp, "id", "response id") {
            Ok(i) => i,
            Err(_) => {
                return Err(provider_err("Phala response id is missing"));
            },
        };
        let choice = match resp.get("choices") {
            Some(c) => match c.as_array() {
                Some(items) => if items.len() > 0 && items[0].as_object().is_some() {
                    &items[0]
                } else {
                    return Err(provider_err("Phala response has no choice"));
                },
                None => {
                    return Err(provider_err("Phala response has no choice"));
                },
            },
            None => {
                return Err(provider_err("Phala response has no choice"));
            },
        };
        let index = match choice.get_u64("index") {
            Some(i) => i,
            None => 0,
        };
        let msg = match choice.get("message") {
            Some(m) => if m.as_object().is_some() {
                m
            } else {
                return Err(provider_err("Phala response has no message"));
            },
            None => {
                return Err(provider_err("Phala response has no message"));
            },
        };
        let content = self.open_member(msg, id.as_str(), index, "content")?;
        let reasoning = match self.open_member(msg, id.as_str(), index, "reasoning_content")? {
            Some(r) => Some(r),
            None => self.open_member(msg, id.as_str(), index, "reasoning")?,
        };
        if content.is_none() && reasoning.is_none() {
            return Err(provider_err("Phala completion contained no encrypted output"));
        }
        Ok(Some(DecryptedProviderCompletion { content, reasoning_content: reasoning, refusal: None }))
    }
}


// ---- streamed responses ----

/// A delta member opened and appended: `content` to the content, the reasoning members to the
/// reasoning.
pub open spec fn delta_member_step(
    s: PhalaSession,
    id: Seq<char>,
    delta: JsonValue,
    member: Seq<char>,
    acc: (Seq<char>, Seq<char>),
) -> Result<(Seq<char>, Seq<char>), Seq<char>> {
    match delta.field_text(member) {
        None => Ok(acc),
        Some(w) => if w.len() == 0 {
            Ok(acc)
        } else if id.len() == 0 {
            Err("Phala encrypted delta omitted response id"@)
        } else {
            let aad = response_field_aad(s, id, "choices.0.delta."@ + member);
            match field_plaintext(s.secret(), w, aad) {
                None => Err(field_open_error(s.secret(), w, aad)),
                Some(t) => Ok(
                    if member == "content"@ {
                        (acc.0 + t, acc.1)
                    } else {
                        (acc.0, acc.1 + t)
                    },
                ),
            }
        },
    }
}

/// One streamed choice: it must be choice 0; its delta's content, reasoning_content and reasoning
/// are opened in that order.
pub open spec fn choice_step(
    s: PhalaSession,
    id: Seq<char>,
    position: nat,
    choice: JsonValue,
    acc: (Seq<char>, Seq<char>),
) -> Result<(Seq<char>, Seq<char>), Seq<char>> {
    if choice.members() is None {
        Err("Phala stream choice is invalid"@)
    } else {
        let index: int = match choice.field_unsigned("index"@) {
            Some(i) => i as int,
            None => position as int,
        };
        if index != 0 {
            Err("Phala stream returned an unexpected choice"@)
        } else {
            match choice.field("delta"@) {
                None => Ok(acc),
                Some(d) => if d.members() is None {
                    Err("Phala stream delta is invalid"@)
                } else {
                    match delta_member_step(s, id, d, "content"@, acc) {
                        Err(m) => Err(m),
                        Ok(a1) => match delta_member_step(s, id, d, "reasoning_content"@, a1) {
                            Err(m) => Err(m),
                            Ok(a2) => delta_member_step(s, id, d, "reasoning"@, a2),
                        },
                    }
                },
            }
        }
    }
}

pub open spec fn choices_fold(
    s: PhalaSession,
    id: Seq<char>,
    items: Seq<JsonValue>,
    acc: (Seq<char>, Seq<char>),
) -> Result<(Seq<char>, Seq<char>), Seq<char>>
    decreases items.len(),
{
    if items.len() == 0 {
        Ok(acc)
    } else {
        match choices_fold(s, id, items.drop_last(), acc) {
            Err(m) => Err(m),
            Ok(a) => choice_step(s, id, (items.len() - 1) as nat, items.last(), a),
        }
    }
}

/// The response id after an event: a non-empty `id` must not change a known one.
pub open spec fn next_response_id(current: Seq<char>, ev: JsonValue) -> Result<Seq<char>, Seq<char>> {
    match ev.field_text("id"@) {
        Some(t) => if t.len() == 0 {
            Ok(current)
        } else if current.len() > 0 && current != t {
            Err("Phala stream changed response id"@)
        } else {
            Ok(t)
        },
        None => Ok(current),
    }
}

/// The `[DONE]` marker.
pub open spec fn done_marker() -> Seq<u8> {
    seq![91u8, 68u8, 79u8, 78u8, 69u8, 93u8]
}

/// The stream so far: response id, content, reasoning, and whether `[DONE]` was seen.
pub type StreamState = (Seq<char>, Seq<char>, Seq<char>, bool);

pub open spec fn frame_step(s: PhalaSession, st: StreamState, frame: Seq<u8>) -> Result<
    StreamState,
    Seq<char>,
> {
    match frame_data(frame) {
        None => Ok(st),
        Some(data) => if data == done_marker() {
            if st.3 {
                Err("Phala stream has duplicate completion markers"@)
            } else {
                Ok((st.0, st.1, st.2, true))
            }
        } else if st.3 {
            Err("Phala stream has data after completion"@)
        } else {
            match json_parsed(data) {
                None => Err("Phala stream contains invalid JSON"@),
                Some(ev) => if ev.members() is None {
                    Err("Phala stream event is not an object"@)
                } else {
                    match next_response_id(st.0, ev) {
                        Err(m) => Err(m),
                        Ok(id) => match ev.field("choices"@) {
                            None => Ok((id, st.1, st.2, st.3)),
                            Some(c) => match c.items() {
                                None => Err("Phala stream choices are invalid"@),
                                Some(items) => match choices_fold(s, id, items, (st.1, st.2)) {
                                    Err(m) => Err(m),
                                    Ok(a) => Ok((id, a.0, a.1, st.3)),
                                },
                            },
                        },
                    }
                },
            }
        },
    }
}

pub open spec fn stream_fold(s: PhalaSession, frames: Seq<Seq<u8>>) -> Result<StreamState, Seq<char>>
    decreases frames.len(),
{
    if frames.len() == 0 {
        Ok((Seq::empty(), Seq::empty(), Seq::empty(), false))
    } else {
        match stream_fold(s, frames.drop_last()) {
            Err(m) => Err(m),
            Ok(st) => frame_step(s, st, frames.last()),
        }
    }
}

/// The content and reasoning of a receipt-verified recorded stream: UTF-8 SSE whose frames carry
/// one response id, end with a single `[DONE]`, and whose deltas open under the session's key.
pub open spec fn verified_stream(s: PhalaSession, bytes: Seq<u8>) -> Result<(Seq<char>, Seq<char>), Seq<char>> {
    if !vstd::utf8::valid_utf8(bytes) {
        Err("Phala stream is not UTF-8 SSE"@)
    } else {
        match stream_fold(s, frames_of(crlf_to_lf(bytes))) {
            Err(m) => Err(m),
            Ok(st) => if !st.3 {
                Err("Phala stream ended without its completion marker"@)
            } else if st.0.len() == 0 {
                Err("Phala stream omitted its response id"@)
            } else {
                Ok((st.1, st.2))
            },
        }
    }
}

/// The encrypted bytes of a stream's final proof whose receipt passes.
pub open spec fn stream_proof_result(s: PhalaSession, p: JsonValue) -> Result<Seq<u8>, Seq<char>> {
    match s.request_hash() {
        None => Err("Phala request context was not prepared"@),
        Some(h) => if p.members() is None {
            Err("Phala stream omitted its proof"@)
        } else {
            match p.field_text("response_body_base64"@) {
                None => Err("Phala proof omitted encrypted response bytes"@),
                Some(b64) => match base64_standard(b64) {
                    None => Err("Phala encrypted response base64 is invalid"@),
                    Some(bytes) => match p.field("receipt"@) {
                        Some(rc) if rc.members() is Some => match receipt_failure(
                            s.state(),
                            s.eligible(),
                            rc,
                            h,
                            bytes,
                        ) {
                            Some(m) => Err(m),
                            None => Ok(bytes),
                        },
                        _ => Err("Phala proof omitted its receipt"@),
                    },
                },
            }
        },
    }
}

/// The check at the end of a stream: its final proof must pass, and the receipt-verified stream
/// must carry exactly the content and reasoning already shown from provisional deltas.
pub open spec fn stream_completion_result(s: PhalaSession, attached: Option<JsonValue>) -> Result<(), Seq<char>> {
    match attached {
        None => Err("Phala stream omitted its final proof"@),
        Some(p) => match stream_proof_result(s, p) {
            Err(m) => Err(m),
            Ok(bytes) => match verified_stream(s, bytes) {
                Err(m) => Err(m),
                Ok((c, r)) => if c != s.streamed().0 || r != s.streamed().1 {
                    Err("Phala provisional deltas do not match the receipt-verified stream"@)
                } else {
                    Ok(())
                },
            },
        },
    }
}

/// The delta fields a stream may carry.
pub open spec fn stream_field_ok(field: Seq<char>) -> bool {
    field == "choices.0.delta.content"@ || field == "choices.0.delta.reasoning"@ || field
        == "choices.0.delta.reasoning_content"@
}

proof fn lemma_choices_prefix_err(
    s: PhalaSession,
    id: Seq<char>,
    items: Seq<JsonValue>,
    acc: (Seq<char>, Seq<char>),
    k: int,
)
    requires
        0 <= k <= items.len(),
        choices_fold(s, id, items.take(k), acc) is Err,
    ensures
        choices_fold(s, id, items, acc) == choices_fold(s, id, items.take(k), acc),
    decreases items.len() - k,
{
    if k < items.len() {
        assert(items.take(k + 1).drop_last() =~= items.take(k));
        lemma_choices_prefix_err(s, id, items, acc, k + 1);
    } else {
        assert(items.take(k) =~= items);
    }
}

proof fn lemma_stream_prefix_err(s: PhalaSession, frames: Seq<Seq<u8>>, k: int)
    requires
        0 <= k <= frames.len(),
        stream_fold(s, frames.take(k)) is Err,
    ensures
        stream_fold(s, frames) == stream_fold(s, frames.take(k)),
    decreases frames.len() - k,
{
    if k < frames.len() {
        assert(frames.take(k + 1).drop_last() =~= frames.take(k));
        lemma_stream_prefix_err(s, frames, k + 1);
    } else {
        assert(frames.take(k) =~= frames);
    }
}

impl PhalaSession {
    fn open_delta_member(
        &self,
        id: &String,
        delta: &JsonValue,
        member: &str,
        content: &mut String,
        reasoning: &mut String,
    ) -> (r: Result<(), CoreError>)
        ensures
            match delta_member_step(*self, id@, *delta, member@, (old(content)@, old(reasoning)@)) {
                Ok(a) => r is Ok && final(content)@ == a.0 && final(reasoning)@ == a.1,
                Err(m) => r matches Err(CoreError::Provider(x)) && x@ == m,
            },
    {
        proof {
            reveal_strlit("content");
        }
        let wire = match delta.get_str(member) {
            Some(w) => w,
            None => {
                return Ok(());
            },
        };
        if wire.unicode_len() == 0 {
            return Ok(());
        }
        if id.unicode_len() == 0 {
            return Err(provider_err("Phala encrypted delta omitted response id"));
        }
        let field = concat2("choices.0.delta.", member);
        let aad = response_aad(self.state.model.as_str(), self.nonce.as_str(), self.timestamp, id.as_str(), field.as_str());
        let text = decrypt_field(wire.as_str(), &self.client_secret, aad.as_slice())?;
        if str_eq(member, "content") {
            content.append(text.as_str());
        } else {
            reasoning.append(text.as_str());
        }
        Ok(())
    }

    fn stream_choice(
        &self,
        id: &String,
        position: usize,
        choice: &JsonValue,
        content: &mut String,
        reasoning: &mut String,
    ) -> (r: Result<(), CoreError>)
        ensures
            match choice_step(*self, id@, position as nat, *choice, (old(content)@, old(reasoning)@)) {
                Ok(a) => r is Ok && final(content)@ == a.0 && final(reasoning)@ == a.1,
                Err(m) => r matches Err(CoreError::Provider(x)) && x@ == m,
            },
    {
        proof {
            reveal_strlit("index");
            reveal_strlit("delta");
            reveal_strlit("content");
            reveal_strlit("reasoning_content");
            reveal_strlit("reasoning");
        }
        if choice.as_object().is_none() {
            return Err(provider_err("Phala stream choice is invalid"));
        }
        let index_is_zero = match choice.get_u64("index") {
            Some(i) => i == 0,
            None => position == 0,
        };
        if !index_is_zero {
            return Err(provider_err("Phala stream returned an unexpected choice"));
        }
        let delta = match choice.get("delta") {
            Some(d) => d,
            None => {
                return Ok(());
            },
        };
        if delta.as_object().is_none() {
            return Err(provider_err("Phala stream delta is invalid"));
        }
        self.open_delta_member(id, delta, "content", content, reasoning)?;
        self.open_delta_member(id, delta, "reasoning_content", content, reasoning)?;
        self.open_delta_member(id, delta, "reasoning", content, reasoning)
    }

    fn stream_frame(
        &self,
        id: &mut String,
        content: &mut String,
        reasoning: &mut String,
        done: &mut bool,
        frame: &Vec<u8>,
    ) -> (r: Result<(), CoreError>)
        ensures
            match frame_step(
                *self,
                (old(id)@, old(content)@, old(reasoning)@, *old(done)),
                frame@,
            ) {
                Ok(st) => r is Ok && st == (
                    final(id)@,
                    final(content)@,
                    final(reasoning)@,
                    *final(done),
                ),
                Err(m) => r matches Err(CoreError::Provider(x)) && x@ == m,
            },
    {
        proof {
            reveal_strlit("id");
            reveal_strlit("choices");
        }
        let data = match frame_data_of(frame.as_slice()) {
            Some(d) => d,
            None => {
                return Ok(());
            },
        };
        let is_done = data.len() == 6 && data[0] == 91u8 && data[1] == 68u8 && data[2] == 79u8
            && data[3] == 78u8 && data[4] == 69u8 && data[5] == 93u8;
        proof {
            if is_done {
                assert(data@ =~= done_marker());
            }
            if data@ == done_marker() {
                assert(data@[0] == 91u8 && data@[5] == 93u8);
            }
        }
        if is_done {
            if *done {
                return Err(provider_err("Phala stream has duplicate completion markers"));
            }
            *done = true;
            return Ok(());
        }
        if *done {
            return Err(provider_err("Phala stream has data after completion"));
        }
        let ev = match parse_json(data.as_slice()) {
            Ok(v) => v,
            Err(_) => {
                return Err(provider_err("Phala stream contains invalid JSON"));
            },
        };
        if ev.as_object().is_none() {
            return Err(provider_err("Phala stream event is not an object"));
        }
        match ev.get_str("id") {
            Some(t) => {
                if t.unicode_len() > 0 {
                    if id.unicode_len() > 0 && !str_eq(id.as_str(), t.as_str()) {
                        return Err(provider_err("Phala stream changed response id"));
                    }
                    *id = t.clone();
                }
            },
            None => {},
        }
        let items = match ev.get("choices") {
            Some(c) => match c.as_array() {
                Some(a) => a,
                None => {
                    return Err(provider_err("Phala stream choices are invalid"));
                },
            },
            None => {
                return Ok(());
            },
        };
        self.stream_choices(id, items, content, reasoning)
    }

    fn stream_choices(
        &self,
        id: &String,
        items: &Vec<JsonValue>,
        content: &mut String,
        reasoning: &mut String,
    ) -> (r: Result<(), CoreError>)
        ensures
            match choices_fold(*self, id@, items@, (old(content)@, old(reasoning)@)) {
                Ok(a) => r is Ok && final(content)@ == a.0 && final(reasoning)@ == a.1,
                Err(m) => r matches Err(CoreError::Provider(x)) && x@ == m,
            },
    {
        let ghost acc0 = (content@, reasoning@);
        let mut i: usize = 0;
        proof {
            assert(items@.take(0) =~= Seq::<JsonValue>::empty());
        }
        while i < items.len()
            invariant
                i <= items@.len(),
                acc0 == (old(content)@, old(reasoning)@),
                choices_fold(*self, id@, items@.take(i as int), acc0) == Ok::<
                    (Seq<char>, Seq<char>),
                    Seq<char>,
                >((content@, reasoning@)),
            decreases items@.len() - i,
        {
            let ghost cur = items@.take(i + 1);
            proof {
                assert(cur.drop_last() =~= items@.take(i as int));
                assert(cur.last() == items@[i as int]);
            }
            match self.stream_choice(id, i, &items[i], content, reasoning) {
                Ok(()) => {},
                Err(e) => {
                    proof {
                        lemma_choices_prefix_err(*self, id@, items@, acc0, i + 1);
                    }
                    return Err(e);
                },
            }
            i = i + 1;
        }
        proof {
            assert(items@.take(items@.len() as int) =~= items@);
        }
        Ok(())
    }

    /// The content and reasoning of receipt-verified stream bytes (see `verified_stream`).
    fn decrypt_verified_stream(&self, bytes: &[u8]) -> (r: Result<(String, String), CoreError>)
        ensures
            match verified_stream(*self, bytes@) {
                Ok((c, rs)) => r matches Ok((x, y)) && x@ == c && y@ == rs,
                Err(m) => r matches Err(CoreError::Provider(x)) && x@ == m,
            },
    {
        if string_from_utf8(vstd::slice::slice_to_vec(bytes)).is_none() {
            return Err(provider_err("Phala stream is not UTF-8 SSE"));
        }
        let normalized = crlf_normalized(bytes);
        let frames = split_frames(normalized.as_slice());
        let ghost fs = byte_views(frames@);
        let mut id = String::new();
        let mut content = String::new();
        let mut reasoning = String::new();
        let mut done = false;
        let mut i: usize = 0;
        proof {
            assert(fs.take(0) =~= Seq::<Seq<u8>>::empty());
        }
        while i < frames.len()
            invariant
                vstd::utf8::valid_utf8(bytes@),
                fs == byte_views(frames@),
                fs == frames_of(crlf_to_lf(bytes@)),
                i <= frames@.len(),
                stream_fold(*self, fs.take(i as int)) == Ok::<StreamState, Seq<char>>(
                    (id@, content@, reasoning@, done),
                ),
            decreases frames@.len() - i,
        {
            let ghost cur = fs.take(i + 1);
            proof {
                assert(cur.drop_last() =~= fs.take(i as int));
                assert(cur.last() == frames@[i as int]@);
            }
            match self.stream_frame(&mut id, &mut content, &mut reasoning, &mut done, &frames[i]) {
                Ok(()) => {},
                Err(e) => {
                    proof {
                        lemma_stream_prefix_err(*self, fs, i + 1);
                    }
                    return Err(e);
                },
            }
            i = i + 1;
        }
        proof {
            assert(fs.take(frames@.len() as int) =~= fs);
        }
        if !done {
            return Err(provider_err("Phala stream ended without its completion marker"));
        }
        if id.unicode_len() == 0 {
            return Err(provider_err("Phala stream omitted its response id"));
        }
        Ok((content, reasoning))
    }

    fn stream_proof_bytes(&self, p: &JsonValue) -> (r: Result<Vec<u8>, CoreError>)
        ensures
            match stream_proof_result(*self, *p) {
                Ok(b) => r matches Ok(x) && x@ == b,
                Err(m) => r matches Err(CoreError::Provider(x)) && x@ == m,
            },
    {
        proof {
            reveal_strlit("response_body_base64");
            reveal_strlit("receipt");
        }
        let expected = match &self.plaintext_request_hash {
            Some(h) => h,
            None => {
                return Err(provider_err("Phala request context was not prepared"));
            },
        };
        if p.as_object().is_none() {
            return Err(provider_err("Phala stream omitted its proof"));
        }
        let b64 = match p.get_str("response_body_base64") {
            Some(b) => b,
            None => {
                return Err(provider_err("Phala proof omitted encrypted response bytes"));
            },
        };
        let bytes = match decode_base64_standard(b64.as_str()) {
            Ok(b) => b,
            Err(_) => {
                return Err(provider_err("Phala encrypted response base64 is invalid"));
            },
        };
        let receipt = match p.get("receipt") {
            Some(r) => if r.as_object().is_some() {
                r
            } else {
                return Err(provider_err("Phala proof omitted its receipt"));
            },
            None => {
                return Err(provider_err("Phala proof omitted its receipt"));
            },
        };
        self.check_receipt(receipt, expected.as_str(), bytes.as_slice())?;
        Ok(bytes)
    }

    /// Opens one provisional stream delta for display and remembers its text, so that the final
    /// receipt-verified stream can be compared with what was shown.
    pub fn decrypt_stream_field(&mut self, wire: &str, response_id: Option<&str>, field: Option<&str>) -> (r: Result<
        Vec<u8>,
        CoreError,
    >)
        ensures
            final(self).state() == old(self).state(),
            final(self).secret() == old(self).secret(),
            final(self).eligible() == old(self).eligible(),
            final(self).nonce() == old(self).nonce(),
            final(self).timestamp() == old(self).timestamp(),
            final(self).request_hash() == old(self).request_hash(),
            final(self).wf() == old(self).wf(),
            !(response_id matches Some(i) && i@.len() > 0) ==> (r matches Err(CoreError::Provider(m))
                && m@ == "Phala stream delta omitted response id"@ && final(self).streamed()
                == old(self).streamed()),
            (response_id matches Some(i) && i@.len() > 0) && !(field matches Some(f) && stream_field_ok(
                f@,
            )) ==> (r matches Err(CoreError::Provider(m)) && m@
                == "Phala stream delta has an unexpected response field"@ && final(self).streamed()
                == old(self).streamed()),
            response_id matches Some(i) ==> (field matches Some(f) ==> (i@.len() > 0 && stream_field_ok(
                f@,
            ) ==> {
                let aad = response_field_aad(*old(self), i@, f@);
                match field_plaintext(old(self).secret(), wire@, aad) {
                    Some(t) => r matches Ok(b) && b@ == vstd::utf8::encode_utf8(t) && final(self).streamed() == (if f@ == "choices.0.delta.content"@ {
                        (old(self).streamed().0 + t, old(self).streamed().1)
                    } else {
                        (old(self).streamed().0, old(self).streamed().1 + t)
                    }),
                    None => r matches Err(CoreError::Provider(m)) && m@ == field_open_error(
                        old(self).secret(),
                        wire@,
                        aad,
                    ) && final(self).streamed() == old(self).streamed(),
                }
            })),
    {
        proof {
            reveal_strlit("choices.0.delta.content");
            reveal_strlit("choices.0.delta.reasoning");
            reveal_strlit("choices.0.delta.reasoning_content");
        }
        let id = match response_id {
            Some(i) => if i.unicode_len() > 0 {
                i
            } else {
                return Err(provider_err("Phala stream delta omitted response id"));
            },
            None => {
                return Err(provider_err("Phala stream delta omitted response id"));
            },
        };
        let f = match field {
            Some(f) => if str_eq(f, "choices.0.delta.content") || str_eq(f, "choices.0.delta.reasoning")
                || str_eq(f, "choices.0.delta.reasoning_content") {
                f
            } else {
                return Err(provider_err("Phala stream delta has an unexpected response field"));
            },
            None => {
                return Err(provider_err("Phala stream delta has an unexpected response field"));
            },
        };
        let aad = response_aad(self.state.model.as_str(), self.nonce.as_str(), self.timestamp, id, f);
        let text = decrypt_field(wire, &self.client_secret, aad.as_slice())?;
        if str_eq(f, "choices.0.delta.content") {
            self.streamed_content.append(text.as_str());
        } else {
            self.streamed_reasoning.append(text.as_str());
        }
        Ok(vstd::slice::slice_to_vec(text.as_str().as_bytes()))
    }

    /// Verifies a stream's final proof and that the provisional deltas shown match the
    /// receipt-verified stream (see `stream_completion_result`). The session is unchanged.
    pub fn verify_stream_completion(&mut self, attached: Option<&JsonValue>) -> (r: Result<
        (),
        CoreError,
    >)
        ensures
            *final(self) == *old(self),
            match stream_completion_result(
                *old(self),
                match attached {
                    Some(p) => Some(*p),
                    None => None,
                },
            ) {
                Ok(()) => r is Ok,
                Err(m) => r matches Err(CoreError::Provider(x)) && x@ == m,
            },
    {
        let p = match attached {
            Some(p) => p,
            None => {
                return Err(provider_err("Phala stream omitted its final proof"));
            },
        };
        let bytes = self.stream_proof_bytes(p)?;
        let (content, reasoning) = self.decrypt_verified_stream(bytes.as_slice())?;
        if !str_eq(content.as_str(), self.streamed_content.as_str()) || !str_eq(
            reasoning.as_str(),
            self.streamed_reasoning.as_str(),
        ) {
            return Err(provider_err("Phala provisional deltas do not match the receipt-verified stream"));
        }
        Ok(())
    }
}


// ---- laws ----

/// A session offers at most 128 workers.
pub proof fn law_eligible_at_most_128(sessions: Seq<(Seq<char>, u64, u64)>)
    ensures
        eligible_ids(sessions).len() <= 128,
{
}

/// After a receipt key is set, looking its id up gives the key that was set.
pub proof fn law_receipt_key_set_then_found(ps: Seq<(Seq<char>, Seq<char>)>, k: Seq<char>, v: Seq<char>)
    ensures
        key_lookup(upsert_key(ps, k, v), k) == Some(v),
{
    lemma_key_index_found(ps, k, 0);
    match key_index_from(ps, k, 0) {
        Some(i) => {
            let qs = ps.update(i, (k, v));
            lemma_key_index_same_prefix(ps, qs, k, 0, i);
        },
        None => {
            let qs = ps.push((k, v));
            lemma_key_index_absent_push(ps, k, v, 0);
        },
    }
}

proof fn lemma_key_index_found(ps: Seq<(Seq<char>, Seq<char>)>, k: Seq<char>, i: int)
    requires
        0 <= i,
    ensures
        key_index_from(ps, k, i) matches Some(j) ==> i <= j < ps.len() && ps[j].0 == k && forall|m: int|
            i <= m < j ==> ps[m].0 != k,
        key_index_from(ps, k, i) is None ==> forall|m: int| i <= m < ps.len() ==> ps[m].0 != k,
    decreases ps.len() - i,
{
    if i < ps.len() && ps[i].0 != k {
        lemma_key_index_found(ps, k, i + 1);
    }
}

proof fn lemma_key_index_same_prefix(
    ps: Seq<(Seq<char>, Seq<char>)>,
    qs: Seq<(Seq<char>, Seq<char>)>,
    k: Seq<char>,
    i: int,
    j: int,
)
    requires
        0 <= i <= j < ps.len(),
        qs.len() == ps.len(),
        qs[j].0 == k,
        forall|m: int| i <= m < j ==> ps[m].0 != k && qs[m] == ps[m],
    ensures
        key_index_from(qs, k, i) == Some(j),
    decreases j - i,
{
    if i < j {
        lemma_key_index_same_prefix(ps, qs, k, i + 1, j);
    }
}

proof fn lemma_key_index_absent_push(ps: Seq<(Seq<char>, Seq<char>)>, k: Seq<char>, v: Seq<char>, i: int)
    requires
        0 <= i <= ps.len(),
        forall|m: int| i <= m < ps.len() ==> ps[m].0 != k,
    ensures
        key_index_from(ps.push((k, v)), k, i) == Some(ps.len() as int),
    decreases ps.len() - i,
{
    if i < ps.len() {
        lemma_key_index_absent_push(ps, k, v, i + 1);
    }
}

} // verus!
