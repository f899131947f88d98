//! Verification of the Phala gateway's evidence: its measured event log, its content-addressed
//! worker sessions, and the keyset and source it attests to.

use vstd::prelude::*;

use crate::crypto::{sha256, sha256_bytes, sha384, sha384_bytes};
use crate::error::CoreError;
use crate::hex::{bytes_eq, decode_hex, extend_bytes, encode_hex, hex_decode, hex_encode, hex_error_text};
use crate::text::{
    after_first, byte_len, concat2, concat3, decimal, decimal_string, eq_ignore_ascii_case,
    eq_ignore_ascii_case_str, lowercase, split_once_after, str_eq, strip_0x, strip_0x_str,
    string_is, to_lowercase, trim_end_char, trim_end_char_str, utf8_len,
};
use crate::value::{
    canonical, canonical_object_without, canonical_text, json_error_text, json_parsed, object_canonical,
    pair_views, parse_json, without_key, JsonValue,
};
use crate::attestation::{base64_error_text, base64_standard, decode_base64_standard, random_nonce_hex};
use crate::phala::{decode_32, decode_32_result, sha256_digest};
use crate::json::{json_quote, json_quoted};
use crate::provider::{VerificationCheck, VerifiedModel};
use crate::dcap::{collateral_of, dcap_outcome, dcap_view, intel_collateral, verify_gateway_quote, DcapView};

verus! {

broadcast use {vstd::utf8::encode_utf8_decode_utf8, vstd::utf8::encode_utf8_valid_utf8};

pub fn attestation_error(message: &str) -> (r: CoreError)
    ensures
        r matches CoreError::Attestation(m) && m@ == message@,
{
    CoreError::Attestation(String::from_str(message))
}

/// The text of member `key` when it is a non-empty string.
pub open spec fn required_text(v: JsonValue, key: Seq<char>) -> Option<Seq<char>> {
    match v.field_text(key) {
        Some(t) => if t.len() > 0 {
            Some(t)
        } else {
            None
        },
        None => None,
    }
}

/// The non-empty string member `key`, or `Phala {label} is missing`.
pub fn required_str<'a>(v: &'a JsonValue, key: &str, label: &str) -> (r: Result<&'a String, CoreError>)
    ensures
        match required_text(*v, key@) {
            Some(t) => r matches Ok(s) && s@ == t,
            None => r matches Err(CoreError::Attestation(m)) && m@ == "Phala "@ + label@
                + " is missing"@,
        },
{
    match v.get_str(key) {
        Some(s) => {
            if s.unicode_len() > 0 {
                return Ok(s);
            }
        },
        None => {},
    }
    Err(CoreError::Attestation(concat3("Phala ", label, " is missing")))
}

/// The canonical JSON bytes of a value; refused when it holds a non-integer number.
pub fn canonical_json(v: &JsonValue) -> (r: Result<Vec<u8>, CoreError>)
    ensures
        match canonical(*v) {
            Some(t) => r matches Ok(b) && b@ == vstd::utf8::encode_utf8(t),
            None => r matches Err(CoreError::Attestation(m)) && m@
                == "Phala canonical JSON accepts only integer numbers"@,
        },
{
    match canonical_text(v) {
        Some(t) => Ok(vstd::slice::slice_to_vec(t.as_str().as_bytes())),
        None => Err(attestation_error("Phala canonical JSON accepts only integer numbers")),
    }
}

/// Whether `record.claims[claim].status` is `asserted`, in any ASCII case.
pub open spec fn claim_asserted(record: JsonValue, claim: Seq<char>) -> bool {
    match record.field("claims"@) {
        Some(claims) => match claims.field(claim) {
            Some(c) => match c.field_text("status"@) {
                Some(t) => eq_ignore_ascii_case(t, "asserted"@),
                None => false,
            },
            None => false,
        },
        None => false,
    }
}

pub fn asserted(record: &JsonValue, claim: &str) -> (r: bool)
    ensures
        r == claim_asserted(*record, claim@),
{
    match record.get("claims") {
        Some(claims) => match claims.get(claim) {
            Some(c) => match c.get_str("status") {
                Some(t) => eq_ignore_ascii_case_str(t.as_str(), "asserted"),
                None => false,
            },
            None => false,
        },
        None => false,
    }
}

// ---- the gateway's RTMR3 ----

/// The replay of the gateway's event log so far: the running RTMR3, the compose hashes measured
/// before `system-ready`, and whether `system-ready` was seen.
pub type ReplayState = (Seq<u8>, Seq<Seq<char>>, bool);

pub open spec fn zero_bytes(n: nat) -> Seq<u8> {
    Seq::new(n, |i: int| 0u8)
}

/// One event of the log: events other than IMR 3 are skipped; an IMR 3 event extends RTMR3 with
/// its digest, zero-padded to 48 bytes.
pub open spec fn replay_step(st: ReplayState, index: nat, e: JsonValue) -> Result<ReplayState, Seq<char>> {
    if e.members() is None {
        Err("Phala gateway event "@ + decimal(index) + " is not an object"@)
    } else if e.field_unsigned("imr"@) != Some(3u64) {
        Ok(st)
    } else {
        match required_text(e, "digest"@) {
            None => Err("Phala gateway event digest is missing"@),
            Some(d) => match hex_decode(strip_0x(d)) {
                None => Err(
                    "Phala gateway event "@ + decimal(index) + " digest must be hex: "@
                        + hex_error_text(strip_0x(d)),
                ),
                Some(b) => if b.len() > 48 {
                    Err("Phala gateway event digest is too long"@)
                } else {
                    let cur = sha384(st.0 + b + zero_bytes((48 - b.len()) as nat));
                    let name = e.field_text("event"@);
                    if name == Some("system-ready"@) {
                        Ok((cur, st.1, true))
                    } else if name == Some("compose-hash"@) && !st.2 {
                        let payload = match e.field_text("event_payload"@) {
                            Some(p) => p,
                            None => Seq::empty(),
                        };
                        Ok((cur, st.1.push(lowercase(payload)), st.2))
                    } else {
                        Ok((cur, st.1, st.2))
                    }
                },
            },
        }
    }
}

/// The replay of the first events.
pub open spec fn replay_events(events: Seq<JsonValue>) -> Result<ReplayState, Seq<char>>
    decreases events.len(),
{
    if events.len() == 0 {
        Ok((zero_bytes(48), Seq::empty(), false))
    } else {
        match replay_events(events.drop_last()) {
            Ok(st) => replay_step(st, (events.len() - 1) as nat, events.last()),
            Err(m) => Err(m),
        }
    }
}

/// What replaying the event log text gives: the final RTMR3 and the single compose hash measured
/// before `system-ready`, or the message of the first failure.
pub open spec fn replay_log(event_log: Seq<char>) -> Result<(Seq<u8>, Seq<char>), Seq<char>> {
    let bytes = vstd::utf8::encode_utf8(event_log);
    match json_parsed(bytes) {
        None => Err("Phala gateway event log is invalid: "@ + json_error_text(bytes)),
        Some(v) => match v.items() {
            None => Err("Phala gateway event log is not an array"@),
            Some(events) => match replay_events(events) {
                Err(m) => Err(m),
                Ok(st) => if st.1.len() != 1 {
                    Err("Phala gateway event log has no unique compose measurement"@)
                } else {
                    Ok((st.0, st.1[0]))
                },
            },
        },
    }
}

proof fn lemma_replay_prefix_err(events: Seq<JsonValue>, k: int)
    requires
        0 <= k <= events.len(),
        replay_events(events.take(k)) is Err,
    ensures
        replay_events(events) == replay_events(events.take(k)),
    decreases events.len() - k,
{
    if k < events.len() {
        assert(events.take(k + 1).drop_last() =~= events.take(k));
        lemma_replay_prefix_err(events, k + 1);
    } else {
        assert(events.take(k) =~= events);
    }
}

fn event_error(index: usize, tail: &str) -> (r: CoreError)
    ensures
        r matches CoreError::Attestation(m) && m@ == "Phala gateway event "@ + decimal(index as nat)
            + tail@,
{
    let mut m = concat2("Phala gateway event ", decimal_string(index as u64).as_str());
    m.append(tail);
    CoreError::Attestation(m)
}

/// One step of the replay on the running state.
fn replay_one(
    current: &mut [u8; 48],
    hashes: &mut Vec<String>,
    ready: &mut bool,
    index: usize,
    e: &JsonValue,
) -> (r: Result<(), CoreError>)
    ensures
        match replay_step(
            (old(current)@, old(hashes)@.map_values(|h: String| h@), *old(ready)),
            index as nat,
            *e,
        ) {
            Ok(st) => r is Ok && st == (final(current)@, final(hashes)@.map_values(
                |h: String| h@,
            ), *final(ready)),
            Err(m) => r matches Err(CoreError::Attestation(x)) && x@ == m,
        },
{
    proof {
        reveal_strlit("imr");
        reveal_strlit("digest");
        reveal_strlit("event");
        reveal_strlit("system-ready");
        reveal_strlit("compose-hash");
        reveal_strlit("event_payload");
        reveal_strlit("Phala ");
        reveal_strlit("gateway event digest");
        reveal_strlit(" is missing");
        reveal_strlit("Phala gateway event digest is missing");
    }
    if e.as_object().is_none() {
        return Err(event_error(index, " is not an object"));
    }
    if e.get_u64("imr") != Some(3u64) {
        return Ok(());
    }
    let d = match required_str(e, "digest", "gateway event digest") {
        Ok(d) => d,
        Err(err) => {
            return Err(err);
        },
    };
    let digest = match decode_hex(strip_0x_str(d.as_str())) {
        Ok(b) => b,
        Err(msg) => {
            let mut m = concat2("Phala gateway event ", decimal_string(index as u64).as_str());
            m.append(" digest must be hex: ");
            m.append(msg.as_str());
            return Err(CoreError::Attestation(m));
        },
    };
    if digest.len() > 48 {
        return Err(attestation_error("Phala gateway event digest is too long"));
    }
    let mut data: Vec<u8> = Vec::new();
    let mut i: usize = 0;
    while i < 48
        invariant
            i <= 48,
            data@ == current@.subrange(0, i as int),
        decreases 48 - i,
    {
        data.push(current[i]);
        i = i + 1;
        proof {
            assert(data@ =~= current@.subrange(0, i as int));
        }
    }
    let mut j: usize = 0;
    while j < 48
        invariant
            j <= 48,
            digest@.len() <= 48,
            data@ == current@ + (if j <= digest@.len() {
                digest@.subrange(0, j as int)
            } else {
                digest@ + zero_bytes((j - digest@.len()) as nat)
            }),
        decreases 48 - j,
    {
        if j < digest.len() {
            data.push(digest[j]);
        } else {
            data.push(0u8);
        }
        j = j + 1;
        proof {
            if j <= digest@.len() {
                assert(data@ =~= current@ + digest@.subrange(0, j as int));
            } else {
                assert(data@ =~= current@ + (digest@ + zero_bytes((j - digest@.len()) as nat)));
            }
        }
    }
    proof {
        if digest@.len() == 48 {
            assert(digest@.subrange(0, 48) =~= digest@);
            assert(data@ =~= current@ + digest@ + zero_bytes(0));
        } else {
            assert(data@ =~= current@ + digest@ + zero_bytes((48 - digest@.len()) as nat));
        }
    }
    let ghost st = (old(current)@, old(hashes)@.map_values(|h: String| h@), *old(ready));
    proof {
        assert(required_text(*e, "digest"@) == Some(d@));
        assert(hex_decode(strip_0x(d@)) == Some(digest@));
        assert(data@ == st.0 + digest@ + zero_bytes((48 - digest@.len()) as nat));
    }
    *current = sha384_bytes(data.as_slice());
    let name = e.get_str("event");
    let is_ready = match name {
        Some(n) => str_eq(n.as_str(), "system-ready"),
        None => false,
    };
    let is_compose = match name {
        Some(n) => str_eq(n.as_str(), "compose-hash"),
        None => false,
    };
    if is_ready {
        *ready = true;
    } else if is_compose && !*ready {
        let payload = match e.get_str("event_payload") {
            Some(p) => to_lowercase(p.as_str()),
            None => {
                proof {
                    reveal_strlit("");
                    assert(""@ =~= Seq::<char>::empty());
                }
                to_lowercase("")
            },
        };
        let ghost before = hashes@.map_values(|h: String| h@);
        hashes.push(payload);
        proof {
            reveal_strlit("");
            assert(hashes@.map_values(|h: String| h@) =~= before.push(payload@));
            assert(payload@ == lowercase(
                match e.field_text("event_payload"@) {
                    Some(p) => p,
                    None => Seq::empty(),
                },
            ));
        }
    }
    proof {
        let cur = sha384(st.0 + digest@ + zero_bytes((48 - digest@.len()) as nat));
        assert(current@ == cur);
    }
    Ok(())
}

/// Replays the gateway's event log: the final RTMR3 and the single compose hash measured before
/// `system-ready`.
pub fn replay_rtmr3(event_log: &str) -> (r: Result<([u8; 48], String), CoreError>)
    ensures
        match replay_log(event_log@) {
            Ok((rtmr, compose)) => r matches Ok((a, h)) && a@ == rtmr && h@ == compose,
            Err(m) => r matches Err(CoreError::Attestation(x)) && x@ == m,
        },
{
    let events_value = match parse_json(event_log.as_bytes()) {
        Ok(v) => v,
        Err(e) => {
            return Err(CoreError::Attestation(concat2("Phala gateway event log is invalid: ", e.as_str())));
        },
    };
    let events = match events_value.as_array() {
        Some(a) => a,
        None => {
            return Err(attestation_error("Phala gateway event log is not an array"));
        },
    };
    let mut current = [0u8; 48];
    let mut hashes: Vec<String> = Vec::new();
    let mut ready = false;
    let mut i: usize = 0;
    proof {
        assert(events@.take(0) =~= Seq::<JsonValue>::empty());
        assert(current@ =~= zero_bytes(48));
        assert(hashes@.map_values(|h: String| h@) =~= Seq::<Seq<char>>::empty());
    }
    while i < events.len()
        invariant
            json_parsed(vstd::utf8::encode_utf8(event_log@)) == Some(events_value),
            events_value.items() == Some(events@),
            i <= events@.len(),
            replay_events(events@.take(i as int)) == Ok::<ReplayState, Seq<char>>(
                (current@, hashes@.map_values(|h: String| h@), ready),
            ),
        decreases events@.len() - i,
    {
        let ghost cur = events@.take(i + 1);
        proof {
            assert(cur.drop_last() =~= events@.take(i as int));
            assert(cur.last() == events@[i as int]);
        }
        match replay_one(&mut current, &mut hashes, &mut ready, i, &events[i]) {
            Ok(()) => {},
            Err(e) => {
                proof {
                    assert(replay_events(cur) is Err);
                    lemma_replay_prefix_err(events@, i + 1);
                    assert(replay_events(events@) == replay_events(cur));
                    assert(json_parsed(vstd::utf8::encode_utf8(event_log@)) == Some(events_value));
                }
                return Err(e);
            },
        }
        i = i + 1;
    }
    proof {
        assert(events@.take(events@.len() as int) =~= events@);
    }
    if hashes.len() != 1 {
        return Err(attestation_error("Phala gateway event log has no unique compose measurement"));
    }
    let h = hashes.remove(0);
    Ok((current, h))
}


// ---- worker sessions ----

/// A worker session the gateway may route to, verified locally.
#[derive(Debug)]
pub struct PhalaWorkerSession {
    pub session_id: String,
    pub established_at: u64,
    pub expires_at: u64,
    /// The session record without its id, as canonical JSON: the text its id addresses.
    pub record: String,
}

pub open spec fn saturating_add(a: u64, b: u64) -> u64 {
    if a + b > u64::MAX {
        u64::MAX
    } else {
        (a + b) as u64
    }
}

pub open spec fn binding_supported(b: JsonValue) -> bool {
    b.field_text("type"@) == Some("tls_spki_sha256"@) || b.field_text("type"@) == Some(
        "e2ee_public_key_sha256"@,
    )
}

/// The message of the first channel binding that is refused.
pub open spec fn bindings_failure(bs: Seq<JsonValue>) -> Option<Seq<char>>
    decreases bs.len(),
{
    if bs.len() == 0 {
        None
    } else {
        match bindings_failure(bs.drop_last()) {
            Some(m) => Some(m),
            None => if bs.last().members() is None {
                Some("Phala worker channel binding is not an object"@)
            } else if !binding_supported(bs.last()) {
                Some("Phala worker session has an unsupported channel binding"@)
            } else {
                None
            },
        }
    }
}

/// The message for worker evidence that is refused: a non-empty evidence object must carry a
/// base64 data URI whose bytes hash to its `digest`.
pub open spec fn evidence_failure(ev: JsonValue) -> Option<Seq<char>> {
    if ev.members()->0.len() == 0 {
        None
    } else {
        match required_text(ev, "data"@) {
            None => Some("Phala worker evidence data is missing"@),
            Some(uri) => match after_first(uri, ";base64,"@) {
                None => Some("Phala worker evidence is not base64"@),
                Some(enc) => match base64_standard(enc) {
                    None => Some("Phala worker evidence is invalid: "@ + base64_error_text(enc)),
                    Some(bytes) => if ev.field_text("digest"@) != Some(
                        "sha256:"@ + hex_encode(sha256(bytes)),
                    ) {
                        Some("Phala worker evidence digest mismatch"@)
                    } else {
                        None
                    },
                },
            },
        }
    }
}

/// The checks after the session's lifetime: claims, channel bindings and evidence.
pub open spec fn session_body_failure(v: JsonValue) -> Option<Seq<char>> {
    if !claim_asserted(v, "tee_attested"@) {
        Some("Phala worker does not assert tee_attested"@)
    } else if !claim_asserted(v, "tcb_up_to_date"@) {
        Some("Phala worker does not assert tcb_up_to_date"@)
    } else if !claim_asserted(v, "gpu_attested"@) {
        Some("Phala worker does not assert gpu_attested"@)
    } else {
        match v.field("channel_binding"@) {
            Some(b) if b.items() is Some && b.items()->0.len() > 0 => match bindings_failure(
                b.items()->0,
            ) {
                Some(m) => Some(m),
                None => match v.field("evidence"@) {
                    Some(ev) if ev.members() is Some => evidence_failure(ev),
                    _ => Some("Phala worker session has no evidence object"@),
                },
            },
            _ => Some("Phala worker session has no channel binding"@),
        }
    }
}

/// What a worker session record is accepted as (its lowercase id, establishment and expiry), or
/// the message of the first check it fails. It must be an `aci/1` record whose id is the SHA-256
/// of its canonical JSON without the id, that outlives `now` by more than `minimum_ttl`, that
/// asserts TEE, TCB and GPU attestation, and whose channel bindings and evidence are accepted.
pub open spec fn worker_session_check(v: JsonValue, minimum_ttl: u64, now: u64) -> Result<
    (Seq<char>, u64, u64),
    Seq<char>,
> {
    if v.members() is None {
        Err("Phala worker session is not an object"@)
    } else {
        match required_text(v, "session_id"@) {
            None => Err("Phala worker session id is missing"@),
            Some(raw) => {
                let id = lowercase(raw);
                if byte_len(id) != 64 || hex_decode(id) is None {
                    Err("Phala worker session id is invalid"@)
                } else if v.field_text("api_version"@) != Some("aci/1"@) {
                    Err("Phala worker session is not aci/1"@)
                } else {
                    match object_canonical(without_key(v.members()->0, "session_id"@)) {
                        None => Err("Phala canonical JSON accepts only integer numbers"@),
                        Some(c) => if hex_encode(sha256(vstd::utf8::encode_utf8(c))) != id {
                            Err("Phala worker session is not content addressed"@)
                        } else {
                            match v.field_unsigned("established_at"@) {
                                None => Err("Phala worker session has no establishment time"@),
                                Some(est) => match v.field_unsigned("expires_at"@) {
                                    None => Err("Phala worker session has no expiry"@),
                                    Some(exp) => if exp <= saturating_add(now, minimum_ttl) {
                                        Err(
                                            "Phala worker session is expired or too close to expiry"@,
                                        )
                                    } else {
                                        match session_body_failure(v) {
                                            Some(m) => Err(m),
                                            None => Ok((id, est, exp)),
                                        }
                                    },
                                },
                            }
                        },
                    }
                }
            },
        }
    }
}

fn check_bindings(bs: &Vec<JsonValue>) -> (r: Result<(), CoreError>)
    ensures
        match bindings_failure(bs@) {
            Some(m) => r matches Err(CoreError::Attestation(x)) && x@ == m,
            None => r is Ok,
        },
{
    let mut i: usize = 0;
    proof {
        assert(bs@.take(0) =~= Seq::<JsonValue>::empty());
        reveal_strlit("type");
        reveal_strlit("tls_spki_sha256");
        reveal_strlit("e2ee_public_key_sha256");
    }
    while i < bs.len()
        invariant
            i <= bs@.len(),
            bindings_failure(bs@.take(i as int)) is None,
        decreases bs@.len() - i,
    {
        let ghost cur = bs@.take(i + 1);
        proof {
            assert(cur.drop_last() =~= bs@.take(i as int));
            assert(cur.last() == bs@[i as int]);
        }
        let b = &bs[i];
        let fail = if b.as_object().is_none() {
            Some(attestation_error("Phala worker channel binding is not an object"))
        } else {
            let ok = match b.get_str("type") {
                Some(t) => str_eq(t.as_str(), "tls_spki_sha256") || str_eq(
                    t.as_str(),
                    "e2ee_public_key_sha256",
                ),
                None => false,
            };
            if ok {
                None
            } else {
                Some(attestation_error("Phala worker session has an unsupported channel binding"))
            }
        };
        match fail {
            Some(e) => {
                proof {
                    lemma_bindings_prefix(bs@, i + 1);
                }
                return Err(e);
            },
            None => {},
        }
        i = i + 1;
    }
    proof {
        assert(bs@.take(bs@.len() as int) =~= bs@);
    }
    Ok(())
}

proof fn lemma_bindings_prefix(bs: Seq<JsonValue>, k: int)
    requires
        0 <= k <= bs.len(),
        bindings_failure(bs.take(k)) is Some,
    ensures
        bindings_failure(bs) == bindings_failure(bs.take(k)),
    decreases bs.len() - k,
{
    if k < bs.len() {
        assert(bs.take(k + 1).drop_last() =~= bs.take(k));
        lemma_bindings_prefix(bs, k + 1);
    } else {
        assert(bs.take(k) =~= bs);
    }
}

fn check_evidence(ev: &JsonValue) -> (r: Result<(), CoreError>)
    requires
        ev.members() is Some,
    ensures
        match evidence_failure(*ev) {
            Some(m) => r matches Err(CoreError::Attestation(x)) && x@ == m,
            None => r is Ok,
        },
{
    proof {
        reveal_strlit("data");
        reveal_strlit("digest");
        reveal_strlit("Phala ");
        reveal_strlit("worker evidence data");
        reveal_strlit(" is missing");
        reveal_strlit("Phala worker evidence data is missing");
    }
    let members = match ev.as_object() {
        Some(m) => m,
        None => {
            return Ok(());
        },
    };
    if members.len() == 0 {
        return Ok(());
    }
    let uri = required_str(ev, "data", "worker evidence data")?;
    let encoded = match split_once_after(uri.as_str(), ";base64,") {
        Some(e) => e,
        None => {
            return Err(attestation_error("Phala worker evidence is not base64"));
        },
    };
    let bytes = match decode_base64_standard(encoded) {
        Ok(b) => b,
        Err(e) => {
            return Err(CoreError::Attestation(concat2("Phala worker evidence is invalid: ", e.as_str())));
        },
    };
    let digest = sha256_digest(bytes.as_slice());
    let matches = match ev.get_str("digest") {
        Some(d) => str_eq(d.as_str(), digest.as_str()),
        None => false,
    };
    if !matches {
        return Err(attestation_error("Phala worker evidence digest mismatch"));
    }
    Ok(())
}

fn check_session_body(v: &JsonValue) -> (r: Result<(), CoreError>)
    ensures
        match session_body_failure(*v) {
            Some(m) => r matches Err(CoreError::Attestation(x)) && x@ == m,
            None => r is Ok,
        },
{
    proof {
        reveal_strlit("tee_attested");
        reveal_strlit("tcb_up_to_date");
        reveal_strlit("gpu_attested");
        reveal_strlit("channel_binding");
        reveal_strlit("evidence");
    }
    if !asserted(v, "tee_attested") {
        return Err(attestation_error("Phala worker does not assert tee_attested"));
    }
    if !asserted(v, "tcb_up_to_date") {
        return Err(attestation_error("Phala worker does not assert tcb_up_to_date"));
    }
    if !asserted(v, "gpu_attested") {
        return Err(attestation_error("Phala worker does not assert gpu_attested"));
    }
    let bindings = match v.get("channel_binding") {
        Some(b) => match b.as_array() {
            Some(a) => if a.len() > 0 {
                a
            } else {
                return Err(attestation_error("Phala worker session has no channel binding"));
            },
            None => {
                return Err(attestation_error("Phala worker session has no channel binding"));
            },
        },
        None => {
            return Err(attestation_error("Phala worker session has no channel binding"));
        },
    };
    check_bindings(bindings)?;
    let evidence = match v.get("evidence") {
        Some(e) => if e.as_object().is_some() {
            e
        } else {
            return Err(attestation_error("Phala worker session has no evidence object"));
        },
        None => {
            return Err(attestation_error("Phala worker session has no evidence object"));
        },
    };
    check_evidence(evidence)
}

/// Verifies one worker session record (see `worker_session_check`).
pub fn verify_worker_session(v: &JsonValue, minimum_ttl: u64, now: u64) -> (r: Result<
    PhalaWorkerSession,
    CoreError,
>)
    ensures
        match worker_session_check(*v, minimum_ttl, now) {
            Ok((id, est, exp)) => r matches Ok(s) && s.session_id@ == id && s.established_at
                == est && s.expires_at == exp && Some(s.record@) == object_canonical(
                without_key(v.members()->0, "session_id"@),
            ),
            Err(m) => r matches Err(CoreError::Attestation(x)) && x@ == m,
        },
{
    proof {
        reveal_strlit("session_id");
        reveal_strlit("api_version");
        reveal_strlit("aci/1");
        reveal_strlit("established_at");
        reveal_strlit("expires_at");
        reveal_strlit("Phala ");
        reveal_strlit("worker session id");
        reveal_strlit(" is missing");
        reveal_strlit("Phala worker session id is missing");
        reveal_strlit("worker session");
        reveal_strlit(" is not an object");
        reveal_strlit("Phala worker session is not an object");
    }
    let members = match v.as_object() {
        Some(m) => m,
        None => {
            return Err(attestation_error("Phala worker session is not an object"));
        },
    };
    let raw = required_str(v, "session_id", "worker session id")?;
    let session_id = to_lowercase(raw.as_str());
    let id_ok = utf8_len(session_id.as_str()) == 64 && decode_hex(session_id.as_str()).is_ok();
    if !id_ok {
        return Err(attestation_error("Phala worker session id is invalid"));
    }
    let version_ok = match v.get_str("api_version") {
        Some(a) => str_eq(a.as_str(), "aci/1"),
        None => false,
    };
    if !version_ok {
        return Err(attestation_error("Phala worker session is not aci/1"));
    }
    let canonical_record = match canonical_object_without(members, "session_id") {
        Some(c) => c,
        None => {
            return Err(attestation_error("Phala canonical JSON accepts only integer numbers"));
        },
    };
    let address = encode_hex(sha256_bytes(canonical_record.as_str().as_bytes()).as_slice());
    if !str_eq(address.as_str(), session_id.as_str()) {
        return Err(attestation_error("Phala worker session is not content addressed"));
    }
    let established_at = match v.get_u64("established_at") {
        Some(t) => t,
        None => {
            return Err(attestation_error("Phala worker session has no establishment time"));
        },
    };
    let expires_at = match v.get_u64("expires_at") {
        Some(t) => t,
        None => {
            return Err(attestation_error("Phala worker session has no expiry"));
        },
    };
    let horizon = if now > u64::MAX - minimum_ttl {
        u64::MAX
    } else {
        now + minimum_ttl
    };
    if expires_at <= horizon {
        return Err(attestation_error("Phala worker session is expired or too close to expiry"));
    }
    check_session_body(v)?;
    Ok(PhalaWorkerSession { session_id, established_at, expires_at, record: canonical_record })
}


// ---- the locally verified state ----

/// The Phala evidence this client verified, kept for the sessions that use it.
#[derive(Debug)]
pub struct PhalaAttestationState {
    pub model: String,
    pub keyset_digest: String,
    pub gateway_public_key_hex: String,
    /// Receipt key id and lowercase hex Ed25519 public key, each id once.
    pub receipt_public_keys: Vec<(String, String)>,
    /// The verified worker sessions, each id once.
    pub worker_sessions: Vec<PhalaWorkerSession>,
}

pub open spec fn session_view(s: PhalaWorkerSession) -> (Seq<char>, u64, u64) {
    (s.session_id@, s.established_at, s.expires_at)
}

pub open spec fn sessions_view(v: Seq<PhalaWorkerSession>) -> Seq<(Seq<char>, u64, u64)> {
    v.map_values(|s: PhalaWorkerSession| session_view(s))
}

pub type StateView = (
    Seq<char>,
    Seq<char>,
    Seq<char>,
    Seq<(Seq<char>, Seq<char>)>,
    Seq<(Seq<char>, u64, u64)>,
);

pub open spec fn state_view(s: PhalaAttestationState) -> StateView {
    (
        s.model@,
        s.keyset_digest@,
        s.gateway_public_key_hex@,
        pair_views(s.receipt_public_keys@),
        sessions_view(s.worker_sessions@),
    )
}

pub open spec fn opt_state_view(s: Option<PhalaAttestationState>) -> Option<StateView> {
    match s {
        Some(x) => Some(state_view(x)),
        None => None,
    }
}

pub fn clone_state(s: &PhalaAttestationState) -> (r: PhalaAttestationState)
    ensures
        state_view(r) == state_view(*s),
{
    let mut keys: Vec<(String, String)> = Vec::new();
    let mut i: usize = 0;
    while i < s.receipt_public_keys.len()
        invariant
            i <= s.receipt_public_keys@.len(),
            pair_views(keys@) == pair_views(s.receipt_public_keys@).take(i as int),
        decreases s.receipt_public_keys@.len() - i,
    {
        let ghost before = pair_views(keys@);
        let a = s.receipt_public_keys[i].0.clone();
        let b = s.receipt_public_keys[i].1.clone();
        keys.push((a, b));
        proof {
            assert(pair_views(keys@) =~= before.push((a@, b@)));
            assert(pair_views(s.receipt_public_keys@)[i as int] == (a@, b@));
            assert(pair_views(keys@) =~= pair_views(s.receipt_public_keys@).take(i + 1));
        }
        i = i + 1;
    }
    let mut sessions: Vec<PhalaWorkerSession> = Vec::new();
    let mut j: usize = 0;
    while j < s.worker_sessions.len()
        invariant
            j <= s.worker_sessions@.len(),
            sessions_view(sessions@) == sessions_view(s.worker_sessions@).take(j as int),
        decreases s.worker_sessions@.len() - j,
    {
        let w = &s.worker_sessions[j];
        let ghost before = sessions_view(sessions@);
        sessions.push(
            PhalaWorkerSession {
                session_id: w.session_id.clone(),
                record: w.record.clone(),
                established_at: w.established_at,
                expires_at: w.expires_at,
            },
        );
        proof {
            assert(sessions_view(sessions@) =~= before.push(session_view(*w)));
            assert(sessions_view(s.worker_sessions@)[j as int] == session_view(*w));
            assert(sessions_view(sessions@) =~= sessions_view(s.worker_sessions@).take(j + 1));
        }
        j = j + 1;
    }
    proof {
        assert(pair_views(s.receipt_public_keys@).take(s.receipt_public_keys@.len() as int)
            =~= pair_views(s.receipt_public_keys@));
        assert(sessions_view(s.worker_sessions@).take(s.worker_sessions@.len() as int)
            =~= sessions_view(s.worker_sessions@));
    }
    PhalaAttestationState {
        model: s.model.clone(),
        keyset_digest: s.keyset_digest.clone(),
        gateway_public_key_hex: s.gateway_public_key_hex.clone(),
        receipt_public_keys: keys,
        worker_sessions: sessions,
    }
}

pub fn clone_optional_state(s: &Option<PhalaAttestationState>) -> (r: Option<PhalaAttestationState>)
    ensures
        opt_state_view(r) == opt_state_view(*s),
{
    match s {
        Some(x) => Some(clone_state(x)),
        None => None,
    }
}


// ---- the gateway's evidence, up to its TDX quote ----

pub const APPROVED_GATEWAY_COMMIT: &'static str = "b6b5c1b82f6fc59490db5a5255bf4493805e66c6";

pub const E2EE_KEY_ID: &'static str = "dstack-kms-e2ee-x25519-v1";

/// The relay's description of a provider model's E2EE key.
#[derive(Debug)]
pub struct ProviderE2eeKey {
    pub verified: bool,
    pub provider: String,
    pub attestation_protocol: String,
    pub e2ee_protocol: String,
    pub encryption_version: u8,
    pub signing_algo: String,
    pub model_id: String,
    pub model: String,
    pub base_url: String,
    pub model_public_key: String,
}

/// The provider's attestation evidence, as the relay forwards it.
#[derive(Debug)]
pub struct ProviderAttestationEvidence {
    pub provider: String,
    pub attestation_protocol: String,
    pub evidence: JsonValue,
}

/// The key the relay offers must be the verified Phala ACI v2 X25519 key of exactly the requested
/// model and base URL (trailing slashes aside).
pub open spec fn key_identity_ok(
    key: ProviderE2eeKey,
    model_id: Seq<char>,
    expected_model: Seq<char>,
    base_url: Seq<char>,
) -> bool {
    &&& key.verified
    &&& key.provider@ == "phala"@
    &&& key.attestation_protocol@ == "phala-aci-tdx-v1"@
    &&& key.e2ee_protocol@ == "phala-aci-v2"@
    &&& key.encryption_version == 2
    &&& key.signing_algo@ == "x25519"@
    &&& key.model_id@ == model_id
    &&& key.model@ == expected_model
    &&& trim_end_char(key.base_url@, '/') == trim_end_char(base_url, '/')
}

/// The gateway serves as an aggregator and supports E2EE version `"2"`.
pub open spec fn capability_ok(caps: JsonValue) -> bool {
    &&& caps.field_text("serving"@) == Some("aggregator"@)
    &&& match caps.field("supported_e2ee_versions"@) {
        Some(v) => match v.items() {
            Some(items) => exists|i: int|
                0 <= i < items.len() && (#[trigger] items[i]).text() == Some("2"@),
            None => false,
        },
        None => false,
    }
}

/// The canonical JSON of the statement the gateway's report data hashes.
pub open spec fn report_statement(keyset_digest: Seq<char>, nonce: Seq<char>) -> Seq<char> {
    "{\"keyset_digest\":"@ + json_quoted(keyset_digest) + ",\"nonce\":"@ + json_quoted(nonce)
        + ",\"purpose\":\"aci.report_data.v1\"}"@
}

/// What the checks before Intel DCAP establish: the evidence bundle, the gateway attestation, its
/// keyset, its TDX evidence, the keyset digest, the expected report data, the keyset's expiry and
/// the quote.
pub type GatewayFacts = (JsonValue, JsonValue, JsonValue, JsonValue, Seq<char>, Seq<u8>, u64, Seq<u8>);

/// The keyset stage: its digest must be the one the report states, the attested report data must
/// hash the digest with the challenge nonce, the keyset must not have expired, and the TDX
/// evidence must hold a hex quote next to Intel collateral.
pub open spec fn keyset_stage(
    bundle: JsonValue,
    report: JsonValue,
    att: JsonValue,
    keyset: JsonValue,
    nonce: Seq<char>,
    now: u64,
) -> Result<GatewayFacts, Seq<char>> {
    match canonical(keyset) {
        None => Err("Phala canonical JSON accepts only integer numbers"@),
        Some(c) => {
            let kd = "sha256:"@ + hex_encode(sha256(vstd::utf8::encode_utf8(c)));
            if report.field_text("workload_keyset_digest"@) != Some(kd) {
                Err("Phala gateway keyset digest mismatch"@)
            } else {
                let expected = sha256(vstd::utf8::encode_utf8(report_statement(kd, nonce)));
                match required_text(att, "report_data"@) {
                    None => Err("Phala gateway report data is missing"@),
                    Some(rd) => match decode_32_result("gateway report_data"@, rd) {
                        Err(m) => Err(m),
                        Ok(b) => if b != expected {
                            Err("Phala gateway report data is not nonce/keyset bound"@)
                        } else {
                            match keyset.field_unsigned("not_after"@) {
                                None => Err("Phala gateway keyset has no expiry"@),
                                Some(exp) => if exp <= now {
                                    Err("Phala gateway keyset has expired"@)
                                } else {
                                    quote_stage(bundle, att, keyset, kd, expected, exp)
                                },
                            }
                        },
                    },
                }
            }
        },
    }
}

pub open spec fn quote_stage(
    bundle: JsonValue,
    att: JsonValue,
    keyset: JsonValue,
    kd: Seq<char>,
    expected: Seq<u8>,
    exp: u64,
) -> Result<GatewayFacts, Seq<char>> {
    match att.field("evidence"@) {
        Some(gev) if gev.members() is Some => match required_text(gev, "quote"@) {
            None => Err("Phala gateway quote is missing"@),
            Some(q) => match hex_decode(strip_0x(q)) {
                None => Err("Phala gateway quote must be hex: "@ + hex_error_text(strip_0x(q))),
                Some(quote) => if bundle.field("intel_collateral"@) is None {
                    Err("Phala Intel collateral is missing"@)
                } else {
                    Ok((bundle, att, keyset, gev, kd, expected, exp, quote))
                },
            },
        },
        _ => Err("Phala gateway TDX evidence is missing"@),
    }
}

/// The checks of the relay's key and of the gateway's evidence up to its TDX quote, in order;
/// the message of the first that fails.
pub open spec fn gateway_quote_check(
    key: ProviderE2eeKey,
    evidence: ProviderAttestationEvidence,
    model_id: Seq<char>,
    expected_model: Seq<char>,
    base_url: Seq<char>,
    nonce: Seq<char>,
    now: u64,
) -> Result<GatewayFacts, Seq<char>> {
    let bundle = evidence.evidence;
    if !key_identity_ok(key, model_id, expected_model, base_url) {
        Err("Phala E2EE key identity mismatch"@)
    } else if evidence.provider@ != "phala"@ || evidence.attestation_protocol@
        != "phala-aci-tdx-v1"@ {
        Err("Phala attestation identity mismatch"@)
    } else if bundle.members() is None {
        Err("Phala evidence bundle is not an object"@)
    } else {
        match bundle.field("gateway_report"@) {
            None => Err("Phala gateway report is missing"@),
            Some(report) => if report.members() is None {
                Err("Phala gateway report is not an object"@)
            } else if report.field_text("api_version"@) != Some("aci/1"@) {
                Err("Phala gateway is not aci/1"@)
            } else {
                match report.field("service_capabilities"@) {
                    Some(caps) if caps.members() is Some => if !capability_ok(caps) {
                        Err("Phala gateway lacks the required ACI E2EE capability"@)
                    } else {
                        match report.field("attestation"@) {
                            Some(att) if att.members() is Some => if att.field_text("tee_type"@)
                                != Some("tdx"@) {
                                Err("Phala gateway is not Intel TDX"@)
                            } else {
                                match att.field("workload_keyset"@) {
                                    None => Err("Phala gateway keyset is missing"@),
                                    Some(keyset) => if keyset.members() is None {
                                        Err("Phala gateway keyset is not an object"@)
                                    } else {
                                        keyset_stage(bundle, report, att, keyset, nonce, now)
                                    },
                                }
                            },
                            _ => Err("Phala gateway attestation is missing"@),
                        }
                    },
                    _ => Err("Phala gateway capabilities are missing"@),
                }
            },
        }
    }
}

/// The parts of the evidence that the checks after Intel DCAP read.
#[derive(Debug)]
pub struct GatewayQuote<'a> {
    pub bundle: &'a JsonValue,
    pub attestation: &'a JsonValue,
    pub keyset: &'a JsonValue,
    pub tdx_evidence: &'a JsonValue,
    pub keyset_digest: String,
    pub expected_report_data: Vec<u8>,
    pub keyset_expires: u64,
    pub quote: Vec<u8>,
}

pub open spec fn quote_facts(q: GatewayQuote) -> GatewayFacts {
    (
        *q.bundle,
        *q.attestation,
        *q.keyset,
        *q.tdx_evidence,
        q.keyset_digest@,
        q.expected_report_data@,
        q.keyset_expires,
        q.quote@,
    )
}

fn key_identity_matches(key: &ProviderE2eeKey, model_id: &str, expected_model: &str, base_url: &str) -> (r: bool)
    ensures
        r == key_identity_ok(*key, model_id@, expected_model@, base_url@),
{
    key.verified && string_is(&key.provider, "phala") && string_is(
        &key.attestation_protocol,
        "phala-aci-tdx-v1",
    ) && string_is(&key.e2ee_protocol, "phala-aci-v2") && key.encryption_version == 2 && string_is(
        &key.signing_algo,
        "x25519",
    ) && string_is(&key.model_id, model_id) && string_is(&key.model, expected_model) && str_eq(
        trim_end_char_str(key.base_url.as_str(), '/'),
        trim_end_char_str(base_url, '/'),
    )
}

fn capabilities_match(caps: &JsonValue) -> (r: bool)
    ensures
        r == capability_ok(*caps),
{
    let serving = match caps.get_str("serving") {
        Some(t) => str_eq(t.as_str(), "aggregator"),
        None => false,
    };
    if !serving {
        return false;
    }
    let items = match caps.get("supported_e2ee_versions") {
        Some(v) => match v.as_array() {
            Some(a) => a,
            None => {
                return false;
            },
        },
        None => {
            return false;
        },
    };
    let mut i: usize = 0;
    while i < items.len()
        invariant
            i <= items@.len(),
            caps.field("supported_e2ee_versions"@) matches Some(v) && v.items() == Some(items@),
            caps.field_text("serving"@) == Some("aggregator"@),
            forall|j: int| 0 <= j < i ==> (#[trigger] items@[j]).text() != Some("2"@),
        decreases items@.len() - i,
    {
        let found = match items[i].as_str() {
            Some(t) => str_eq(t.as_str(), "2"),
            None => false,
        };
        if found {
            return true;
        }
        i = i + 1;
    }
    false
}

fn report_statement_bytes(keyset_digest: &str, nonce: &str) -> (r: Vec<u8>)
    ensures
        r@ == vstd::utf8::encode_utf8(report_statement(keyset_digest@, nonce@)),
{
    let mut s = String::from_str("{\"keyset_digest\":");
    s.append(json_quote(keyset_digest).as_str());
    s.append(",\"nonce\":");
    s.append(json_quote(nonce).as_str());
    s.append(",\"purpose\":\"aci.report_data.v1\"}");
    vstd::slice::slice_to_vec(s.as_str().as_bytes())
}

fn keyset_checks<'a>(
    bundle: &'a JsonValue,
    report: &'a JsonValue,
    att: &'a JsonValue,
    keyset: &'a JsonValue,
    nonce: &str,
    now: u64,
) -> (r: Result<GatewayQuote<'a>, CoreError>)
    ensures
        match keyset_stage(*bundle, *report, *att, *keyset, nonce@, now) {
            Ok(f) => r matches Ok(q) && quote_facts(q) == f,
            Err(m) => r matches Err(CoreError::Attestation(x)) && x@ == m,
        },
{
    proof {
        reveal_strlit("report_data");
        reveal_strlit("not_after");
        reveal_strlit("evidence");
        reveal_strlit("quote");
        reveal_strlit("intel_collateral");
        reveal_strlit("workload_keyset_digest");
        reveal_strlit("Phala ");
        reveal_strlit(" is missing");
        reveal_strlit("gateway report data");
        reveal_strlit("Phala gateway report data is missing");
        reveal_strlit("gateway quote");
        reveal_strlit("Phala gateway quote is missing");
        reveal_strlit(" must be hex: ");
        reveal_strlit("Phala gateway quote must be hex: ");
    }
    let canonical_keyset = canonical_json(keyset)?;
    let keyset_digest = sha256_digest(canonical_keyset.as_slice());
    let digest_ok = match report.get_str("workload_keyset_digest") {
        Some(d) => str_eq(d.as_str(), keyset_digest.as_str()),
        None => false,
    };
    if !digest_ok {
        return Err(attestation_error("Phala gateway keyset digest mismatch"));
    }
    let expected = sha256_bytes(report_statement_bytes(keyset_digest.as_str(), nonce).as_slice());
    let rd = required_str(att, "report_data", "gateway report data")?;
    let bound = decode_32("gateway report_data", rd.as_str())?;
    if !bytes_eq(&bound, expected.as_slice()) {
        return Err(attestation_error("Phala gateway report data is not nonce/keyset bound"));
    }
    let keyset_expires = match keyset.get_u64("not_after") {
        Some(t) => t,
        None => {
            return Err(attestation_error("Phala gateway keyset has no expiry"));
        },
    };
    if keyset_expires <= now {
        return Err(attestation_error("Phala gateway keyset has expired"));
    }
    let gev = match att.get("evidence") {
        Some(e) => if e.as_object().is_some() {
            e
        } else {
            return Err(attestation_error("Phala gateway TDX evidence is missing"));
        },
        None => {
            return Err(attestation_error("Phala gateway TDX evidence is missing"));
        },
    };
    let q = required_str(gev, "quote", "gateway quote")?;
    let quote = match decode_hex(strip_0x_str(q.as_str())) {
        Ok(b) => b,
        Err(e) => {
            return Err(CoreError::Attestation(concat2("Phala gateway quote must be hex: ", e.as_str())));
        },
    };
    if bundle.get("intel_collateral").is_none() {
        return Err(attestation_error("Phala Intel collateral is missing"));
    }
    Ok(
        GatewayQuote {
            bundle,
            attestation: att,
            keyset,
            tdx_evidence: gev,
            keyset_digest,
            expected_report_data: expected,
            keyset_expires,
            quote,
        },
    )
}

/// Checks the relay's key and the gateway's evidence up to its TDX quote, and returns what the
/// later checks read, the quote among it (see `gateway_quote_check`).
pub fn phala_gateway_quote<'a>(
    key: &ProviderE2eeKey,
    evidence: &'a ProviderAttestationEvidence,
    model_id: &str,
    expected_model: &str,
    base_url: &str,
    nonce: &str,
    now: u64,
) -> (r: Result<GatewayQuote<'a>, CoreError>)
    ensures
        match gateway_quote_check(
            *key,
            *evidence,
            model_id@,
            expected_model@,
            base_url@,
            nonce@,
            now,
        ) {
            Ok(f) => r matches Ok(q) && quote_facts(q) == f,
            Err(m) => r matches Err(CoreError::Attestation(x)) && x@ == m,
        },
{
    proof {
        reveal_strlit("phala");
        reveal_strlit("phala-aci-tdx-v1");
        reveal_strlit("gateway_report");
        reveal_strlit("api_version");
        reveal_strlit("aci/1");
        reveal_strlit("service_capabilities");
        reveal_strlit("attestation");
        reveal_strlit("tee_type");
        reveal_strlit("tdx");
        reveal_strlit("workload_keyset");
    }
    if !key_identity_matches(key, model_id, expected_model, base_url) {
        return Err(attestation_error("Phala E2EE key identity mismatch"));
    }
    if !string_is(&evidence.provider, "phala") || !string_is(
        &evidence.attestation_protocol,
        "phala-aci-tdx-v1",
    ) {
        return Err(attestation_error("Phala attestation identity mismatch"));
    }
    let bundle = &evidence.evidence;
    if bundle.as_object().is_none() {
        return Err(attestation_error("Phala evidence bundle is not an object"));
    }
    let report = match bundle.get("gateway_report") {
        Some(r) => r,
        None => {
            return Err(attestation_error("Phala gateway report is missing"));
        },
    };
    if report.as_object().is_none() {
        return Err(attestation_error("Phala gateway report is not an object"));
    }
    let version_ok = match report.get_str("api_version") {
        Some(v) => str_eq(v.as_str(), "aci/1"),
        None => false,
    };
    if !version_ok {
        return Err(attestation_error("Phala gateway is not aci/1"));
    }
    let caps = match report.get("service_capabilities") {
        Some(c) => if c.as_object().is_some() {
            c
        } else {
            return Err(attestation_error("Phala gateway capabilities are missing"));
        },
        None => {
            return Err(attestation_error("Phala gateway capabilities are missing"));
        },
    };
    if !capabilities_match(caps) {
        return Err(attestation_error("Phala gateway lacks the required ACI E2EE capability"));
    }
    let att = match report.get("attestation") {
        Some(a) => if a.as_object().is_some() {
            a
        } else {
            return Err(attestation_error("Phala gateway attestation is missing"));
        },
        None => {
            return Err(attestation_error("Phala gateway attestation is missing"));
        },
    };
    let tdx = match att.get_str("tee_type") {
        Some(t) => str_eq(t.as_str(), "tdx"),
        None => false,
    };
    if !tdx {
        return Err(attestation_error("Phala gateway is not Intel TDX"));
    }
    let keyset = match att.get("workload_keyset") {
        Some(k) => k,
        None => {
            return Err(attestation_error("Phala gateway keyset is missing"));
        },
    };
    if keyset.as_object().is_none() {
        return Err(attestation_error("Phala gateway keyset is not an object"));
    }
    keyset_checks(bundle, report, att, keyset, nonce, now)
}


// ---- the gateway's evidence after Intel DCAP ----

/// A TD 1.0 report body, as far as these checks read it.
#[derive(Debug)]
pub struct TdReport {
    pub report_data: Vec<u8>,
    pub rt_mr3: Vec<u8>,
}

/// What Intel DCAP verification of the gateway's quote reported: the TCB status and, for a TD 1.0
/// quote, its report body.
#[derive(Debug)]
pub struct DcapReport {
    pub status: String,
    pub td10: Option<TdReport>,
}

pub open spec fn source_approved(repo: Seq<char>) -> bool {
    repo == "https://github.com/Dstack-TEE/private-ai-gateway"@ || repo
        == "https://github.com/Dstack-TEE/private-ai-gateway.git"@
}

/// Whether an entry is the gateway's approved X25519 E2EE key.
pub open spec fn approved_e2ee_entry(e: JsonValue) -> bool {
    e.members() is Some && e.field_text("key_id"@) == Some("dstack-kms-e2ee-x25519-v1"@)
        && e.field_text("algo"@) == Some("x25519-aes-256-gcm-hkdf-sha256"@)
}

/// The index of the first approved E2EE entry at or after `i`.
pub open spec fn e2ee_entry_from(entries: Seq<JsonValue>, i: int) -> Option<int>
    decreases entries.len() - i,
{
    if i < 0 || i >= entries.len() {
        None
    } else if approved_e2ee_entry(entries[i]) {
        Some(i)
    } else {
        e2ee_entry_from(entries, i + 1)
    }
}

/// A receipt key entry that is accepted: an Ed25519 entry with a key id and a 32-byte hex key.
pub open spec fn receipt_entry(e: JsonValue) -> Option<(Seq<char>, Seq<char>)> {
    if e.members() is Some && e.field_text("algo"@) == Some("ed25519"@) {
        match e.field_text("key_id"@) {
            Some(k) => match e.field_text("public_key"@) {
                Some(p) => if decode_32_result("receipt public key"@, p) is Ok {
                    Some((k, lowercase(p)))
                } else {
                    None
                },
                None => None,
            },
            None => None,
        }
    } else {
        None
    }
}

/// The index of the first pair at or after `i` with key `k`.
pub open spec fn key_index_from(ps: Seq<(Seq<char>, Seq<char>)>, k: Seq<char>, i: int) -> Option<int>
    decreases ps.len() - i,
{
    if i < 0 || i >= ps.len() {
        None
    } else if ps[i].0 == k {
        Some(i)
    } else {
        key_index_from(ps, k, i + 1)
    }
}

/// Sets key `k` to `v`, in place when `k` is present.
pub open spec fn upsert_key(ps: Seq<(Seq<char>, Seq<char>)>, k: Seq<char>, v: Seq<char>) -> Seq<
    (Seq<char>, Seq<char>),
> {
    match key_index_from(ps, k, 0) {
        Some(i) => ps.update(i, (k, v)),
        None => ps.push((k, v)),
    }
}

/// The receipt keys the entries provide, later entries replacing earlier ones of the same id.
pub open spec fn receipt_keys_of(entries: Seq<JsonValue>) -> Seq<(Seq<char>, Seq<char>)>
    decreases entries.len(),
{
    if entries.len() == 0 {
        Seq::empty()
    } else {
        let ps = receipt_keys_of(entries.drop_last());
        match receipt_entry(entries.last()) {
            Some(kv) => upsert_key(ps, kv.0, kv.1),
            None => ps,
        }
    }
}

pub open spec fn session_index_from(ss: Seq<(Seq<char>, u64, u64)>, id: Seq<char>, i: int) -> Option<
    int,
>
    decreases ss.len() - i,
{
    if i < 0 || i >= ss.len() {
        None
    } else if ss[i].0 == id {
        Some(i)
    } else {
        session_index_from(ss, id, i + 1)
    }
}

pub open spec fn upsert_session(ss: Seq<(Seq<char>, u64, u64)>, w: (Seq<char>, u64, u64)) -> Seq<
    (Seq<char>, u64, u64),
> {
    match session_index_from(ss, w.0, 0) {
        Some(i) => ss.update(i, w),
        None => ss.push(w),
    }
}

/// The worker sessions, each verified, later ones replacing earlier ones of the same id, and the
/// earliest expiry among them and `expires`; or the first session's failure.
pub open spec fn sessions_of(values: Seq<JsonValue>, minimum_ttl: u64, now: u64, expires: u64) -> Result<
    (Seq<(Seq<char>, u64, u64)>, u64),
    Seq<char>,
>
    decreases values.len(),
{
    if values.len() == 0 {
        Ok((Seq::empty(), expires))
    } else {
        match sessions_of(values.drop_last(), minimum_ttl, now, expires) {
            Err(m) => Err(m),
            Ok((ss, e)) => match worker_session_check(values.last(), minimum_ttl, now) {
                Err(m) => Err(m),
                Ok(w) => Ok((upsert_session(ss, w), if w.2 < e {
                    w.2
                } else {
                    e
                })),
            },
        }
    }
}

/// The minimum remaining lifetime a worker session must have: the bundle's policy, at least 30 s.
pub open spec fn minimum_ttl(bundle: JsonValue) -> u64 {
    let t = match bundle.field("policy"@) {
        Some(p) => match p.field_unsigned("minimum_session_ttl_seconds"@) {
            Some(x) => x,
            None => 30u64,
        },
        None => 30u64,
    };
    if t < 30 {
        30u64
    } else {
        t
    }
}

/// What the verified evidence comes to: the gateway's X25519 key (lowercase hex), its source
/// commit, the keyset digest, the receipt keys, the worker sessions and the earliest expiry.
pub type PhalaSummary = (
    Seq<char>,
    Seq<char>,
    Seq<char>,
    Seq<(Seq<char>, Seq<char>)>,
    Seq<(Seq<char>, u64, u64)>,
    u64,
);

pub open spec fn sessions_stage(
    f: GatewayFacts,
    commit: Seq<char>,
    gw: Seq<char>,
    keys: Seq<(Seq<char>, Seq<char>)>,
    now: u64,
) -> Result<PhalaSummary, Seq<char>> {
    match f.0.field("worker_sessions"@) {
        Some(v) if v.items() is Some && v.items()->0.len() > 0 => match sessions_of(
            v.items()->0,
            minimum_ttl(f.0),
            now,
            f.6,
        ) {
            Err(m) => Err(m),
            Ok((ss, exp)) => Ok((gw, commit, f.4, keys, ss, exp)),
        },
        _ => Err("Phala supplied no worker sessions"@),
    }
}

pub open spec fn receipts_stage(f: GatewayFacts, commit: Seq<char>, gw: Seq<char>, now: u64) -> Result<
    PhalaSummary,
    Seq<char>,
> {
    match f.2.field("receipt_signing_keys"@) {
        Some(v) if v.items() is Some => {
            let keys = receipt_keys_of(v.items()->0);
            if keys.len() == 0 {
                Err("Phala has no valid receipt key"@)
            } else {
                sessions_stage(f, commit, gw, keys, now)
            }
        },
        _ => Err("Phala gateway has no receipt keys"@),
    }
}

pub open spec fn key_stage(f: GatewayFacts, commit: Seq<char>, key_public: Seq<char>, now: u64) -> Result<
    PhalaSummary,
    Seq<char>,
> {
    match f.2.field("e2ee_public_keys"@) {
        Some(v) if v.items() is Some => match e2ee_entry_from(v.items()->0, 0) {
            None => Err("Phala gateway has no approved X25519 E2EE key"@),
            Some(i) => match v.items()->0[i].field_text("public_key"@) {
                None => Err("Phala gateway has no approved X25519 E2EE key"@),
                Some(pk) => {
                    let gw = lowercase(pk);
                    match decode_32_result("gateway X25519 key"@, gw) {
                        Err(m) => Err(m),
                        Ok(_) => if gw != lowercase(key_public) {
                            Err("Phala gateway key differs from the requested attested key"@)
                        } else {
                            receipts_stage(f, commit, gw, now)
                        },
                    }
                },
            },
        },
        _ => Err("Phala gateway has no E2EE keys"@),
    }
}

pub open spec fn source_stage(f: GatewayFacts, key_public: Seq<char>, now: u64) -> Result<
    PhalaSummary,
    Seq<char>,
> {
    match f.1.field("source_provenance"@) {
        Some(p) if p.members() is Some => match required_text(p, "repo_url"@) {
            None => Err("Phala gateway source repository is missing"@),
            Some(repo) => if !source_approved(repo) {
                Err("Phala gateway source repository is not approved"@)
            } else {
                match required_text(p, "repo_commit"@) {
                    None => Err("Phala gateway source commit is missing"@),
                    Some(c) => if lowercase(c) != "b6b5c1b82f6fc59490db5a5255bf4493805e66c6"@ {
                        Err("Phala gateway source commit is not approved"@)
                    } else {
                        key_stage(f, lowercase(c), key_public, now)
                    },
                }
            },
        },
        _ => Err("Phala gateway source provenance is missing"@),
    }
}

pub open spec fn measurement_stage(f: GatewayFacts, rt_mr3: Seq<u8>, key_public: Seq<char>, now: u64) -> Result<
    PhalaSummary,
    Seq<char>,
> {
    match required_text(f.3, "event_log"@) {
        None => Err("Phala gateway event log is missing"@),
        Some(log) => match required_text(f.3, "app_compose"@) {
            None => Err("Phala gateway compose file is missing"@),
            Some(compose) => match replay_log(log) {
                Err(m) => Err(m),
                Ok((rtmr, measured)) => if rt_mr3 != rtmr {
                    Err("Phala gateway event log does not replay to quoted RTMR3"@)
                } else if hex_encode(sha256(vstd::utf8::encode_utf8(compose))) != measured {
                    Err("Phala gateway compose file is not measured by the quote"@)
                } else {
                    source_stage(f, key_public, now)
                },
            },
        },
    }
}

/// The checks on Intel DCAP's verdict and everything after it; a DCAP failure carries its own
/// message.
pub open spec fn dcap_stage(f: GatewayFacts, dcap: Result<DcapView, Seq<char>>, key_public: Seq<char>, now: u64) -> Result<
    PhalaSummary,
    Seq<char>,
> {
    match dcap {
        Err(m) => Err(m),
        Ok(d) => if d.status != "UpToDate"@ {
            Err("Phala gateway TDX status is "@ + d.status + "; UpToDate is required"@)
        } else {
            match d.td10 {
                None => Err("Phala quote is not a supported TDX report"@),
                Some(td) => if td.0 != f.5 + zero_bytes(32) {
                    Err("Phala TDX quote does not bind the challenged keyset"@)
                } else {
                    measurement_stage(f, td.1, key_public, now)
                },
            }
        },
    }
}

/// DCAP's verdict, as text or report, in the form the checks read.
pub open spec fn dcap_result_view(r: Result<DcapReport, String>) -> Result<DcapView, Seq<char>> {
    match r {
        Ok(d) => Ok(dcap_view(d)),
        Err(m) => Err(m@),
    }
}

/// All checks of a Phala model's key and evidence, in order: the evidence up to the gateway's
/// TDX quote, the Intel collateral the bundle carries, Intel DCAP's verdict on the quote under it,
/// and the checks on what the quote reports.
pub open spec fn phala_model_check(
    key: ProviderE2eeKey,
    evidence: ProviderAttestationEvidence,
    model_id: Seq<char>,
    expected_model: Seq<char>,
    base_url: Seq<char>,
    nonce: Seq<char>,
    now: u64,
) -> Result<PhalaSummary, Seq<char>> {
    match gateway_quote_check(key, evidence, model_id, expected_model, base_url, nonce, now) {
        Err(m) => Err(m),
        Ok(f) => match collateral_of(f.0) {
            Err(m) => Err(m),
            Ok(cv) => dcap_stage(f, dcap_outcome(f.7, cv, now), key.model_public_key@, now),
        },
    }
}


fn receipt_entry_of(e: &JsonValue) -> (r: Option<(String, String)>)
    ensures
        match receipt_entry(*e) {
            Some(kv) => r matches Some(p) && p.0@ == kv.0 && p.1@ == kv.1,
            None => r is None,
        },
{
    proof {
        reveal_strlit("algo");
        reveal_strlit("ed25519");
        reveal_strlit("key_id");
        reveal_strlit("public_key");
        reveal_strlit("receipt public key");
    }
    if e.as_object().is_none() {
        return None;
    }
    let algo_ok = match e.get_str("algo") {
        Some(a) => str_eq(a.as_str(), "ed25519"),
        None => false,
    };
    if !algo_ok {
        return None;
    }
    let key_id = match e.get_str("key_id") {
        Some(k) => k,
        None => {
            return None;
        },
    };
    let public_key = match e.get_str("public_key") {
        Some(p) => p,
        None => {
            return None;
        },
    };
    if decode_32("receipt public key", public_key.as_str()).is_err() {
        return None;
    }
    Some((key_id.clone(), to_lowercase(public_key.as_str())))
}

fn upsert_pair(ps: &mut Vec<(String, String)>, k: String, v: String)
    ensures
        pair_views(final(ps)@) == upsert_key(pair_views(old(ps)@), k@, v@),
{
    let ghost pv = pair_views(ps@);
    let mut j: usize = 0;
    while j < ps.len()
        invariant
            pv == pair_views(ps@),
            pv == pair_views(old(ps)@),
            j <= ps@.len(),
            key_index_from(pv, k@, j as int) == key_index_from(pv, k@, 0),
        decreases ps@.len() - j,
    {
        if str_eq(ps[j].0.as_str(), k.as_str()) {
            proof {
                assert(pv[j as int].0 == k@);
                assert(key_index_from(pv, k@, j as int) == Some(j as int));
            }
            let ghost kv = (k@, v@);
            proof {
                assert(upsert_key(pv, k@, v@) == pv.update(j as int, kv));
            }
            ps.set(j, (k, v));
            proof {
                assert(pair_views(ps@) =~= pv.update(j as int, kv));
            }
            return;
        }
        j = j + 1;
    }
    ps.push((k, v));
    proof {
        assert(pair_views(ps@) =~= pv.push((k@, v@)));
    }
}

fn receipt_keys(entries: &Vec<JsonValue>) -> (r: Vec<(String, String)>)
    ensures
        pair_views(r@) == receipt_keys_of(entries@),
{
    let mut out: Vec<(String, String)> = Vec::new();
    let mut i: usize = 0;
    proof {
        assert(entries@.take(0) =~= Seq::<JsonValue>::empty());
        assert(pair_views(out@) =~= Seq::<(Seq<char>, Seq<char>)>::empty());
    }
    while i < entries.len()
        invariant
            i <= entries@.len(),
            pair_views(out@) == receipt_keys_of(entries@.take(i as int)),
        decreases entries@.len() - i,
    {
        let ghost cur = entries@.take(i + 1);
        proof {
            assert(cur.drop_last() =~= entries@.take(i as int));
            assert(cur.last() == entries@[i as int]);
        }
        match receipt_entry_of(&entries[i]) {
            Some(kv) => {
                upsert_pair(&mut out, kv.0, kv.1);
            },
            None => {},
        }
        i = i + 1;
    }
    proof {
        assert(entries@.take(entries@.len() as int) =~= entries@);
    }
    out
}

fn upsert_worker(ss: &mut Vec<PhalaWorkerSession>, w: PhalaWorkerSession)
    ensures
        sessions_view(final(ss)@) == upsert_session(sessions_view(old(ss)@), session_view(w)),
{
    let ghost sv = sessions_view(ss@);
    let mut j: usize = 0;
    while j < ss.len()
        invariant
            sv == sessions_view(ss@),
            sv == sessions_view(old(ss)@),
            j <= ss@.len(),
            session_index_from(sv, w.session_id@, j as int) == session_index_from(
                sv,
                w.session_id@,
                0,
            ),
        decreases ss@.len() - j,
    {
        if str_eq(ss[j].session_id.as_str(), w.session_id.as_str()) {
            proof {
                assert(sv[j as int].0 == w.session_id@);
                assert(session_index_from(sv, w.session_id@, j as int) == Some(j as int));
            }
            let ghost wv = session_view(w);
            proof {
                assert(upsert_session(sv, wv) == sv.update(j as int, wv));
            }
            ss.set(j, w);
            proof {
                assert(sessions_view(ss@) =~= sv.update(j as int, wv));
            }
            return;
        }
        j = j + 1;
    }
    let ghost wv = session_view(w);
    ss.push(w);
    proof {
        assert(sessions_view(ss@) =~= sv.push(wv));
    }
}

fn worker_sessions(values: &Vec<JsonValue>, minimum_ttl: u64, now: u64, expires: u64) -> (r: Result<
    (Vec<PhalaWorkerSession>, u64),
    CoreError,
>)
    ensures
        match sessions_of(values@, minimum_ttl, now, expires) {
            Ok((ss, e)) => r matches Ok((v, x)) && sessions_view(v@) == ss && x == e,
            Err(m) => r matches Err(CoreError::Attestation(x)) && x@ == m,
        },
{
    let mut out: Vec<PhalaWorkerSession> = Vec::new();
    let mut earliest = expires;
    let mut i: usize = 0;
    proof {
        assert(values@.take(0) =~= Seq::<JsonValue>::empty());
        assert(sessions_view(out@) =~= Seq::<(Seq<char>, u64, u64)>::empty());
    }
    while i < values.len()
        invariant
            i <= values@.len(),
            sessions_of(values@.take(i as int), minimum_ttl, now, expires) == Ok::<
                (Seq<(Seq<char>, u64, u64)>, u64),
                Seq<char>,
            >((sessions_view(out@), earliest)),
        decreases values@.len() - i,
    {
        let ghost cur = values@.take(i + 1);
        proof {
            assert(cur.drop_last() =~= values@.take(i as int));
            assert(cur.last() == values@[i as int]);
        }
        match verify_worker_session(&values[i], minimum_ttl, now) {
            Ok(w) => {
                if w.expires_at < earliest {
                    earliest = w.expires_at;
                }
                upsert_worker(&mut out, w);
            },
            Err(e) => {
                proof {
                    lemma_sessions_prefix_err(values@, minimum_ttl, now, expires, i + 1);
                }
                return Err(e);
            },
        }
        i = i + 1;
    }
    proof {
        assert(values@.take(values@.len() as int) =~= values@);
    }
    Ok((out, earliest))
}

proof fn lemma_sessions_prefix_err(values: Seq<JsonValue>, ttl: u64, now: u64, expires: u64, k: int)
    requires
        0 <= k <= values.len(),
        sessions_of(values.take(k), ttl, now, expires) is Err,
    ensures
        sessions_of(values, ttl, now, expires) == sessions_of(values.take(k), ttl, now, expires),
    decreases values.len() - k,
{
    if k < values.len() {
        assert(values.take(k + 1).drop_last() =~= values.take(k));
        lemma_sessions_prefix_err(values, ttl, now, expires, k + 1);
    } else {
        assert(values.take(k) =~= values);
    }
}

/// The verified evidence, as `PhalaSummary` describes it.
#[derive(Debug)]
pub struct PhalaEvidence {
    pub gateway_public_key_hex: String,
    pub source_commit: String,
    pub keyset_digest: String,
    pub receipt_public_keys: Vec<(String, String)>,
    pub worker_sessions: Vec<PhalaWorkerSession>,
    pub expires_at: u64,
}

pub open spec fn evidence_view(e: PhalaEvidence) -> PhalaSummary {
    (
        e.gateway_public_key_hex@,
        e.source_commit@,
        e.keyset_digest@,
        pair_views(e.receipt_public_keys@),
        sessions_view(e.worker_sessions@),
        e.expires_at,
    )
}

fn sessions_checks(q: &GatewayQuote, commit: String, gw: String, keys: Vec<(String, String)>, now: u64) -> (r: Result<
    PhalaEvidence,
    CoreError,
>)
    ensures
        match sessions_stage(quote_facts(*q), commit@, gw@, pair_views(keys@), now) {
            Ok(t) => r matches Ok(e) && evidence_view(e) == t,
            Err(m) => r matches Err(CoreError::Attestation(x)) && x@ == m,
        },
{
    proof {
        reveal_strlit("worker_sessions");
        reveal_strlit("policy");
        reveal_strlit("minimum_session_ttl_seconds");
    }
    let values = match q.bundle.get("worker_sessions") {
        Some(v) => match v.as_array() {
            Some(a) => if a.len() > 0 {
                a
            } else {
                return Err(attestation_error("Phala supplied no worker sessions"));
            },
            None => {
                return Err(attestation_error("Phala supplied no worker sessions"));
            },
        },
        None => {
            return Err(attestation_error("Phala supplied no worker sessions"));
        },
    };
    let policy_ttl = match q.bundle.get("policy") {
        Some(p) => match p.get_u64("minimum_session_ttl_seconds") {
            Some(t) => t,
            None => 30,
        },
        None => 30,
    };
    let ttl = if policy_ttl < 30 {
        30
    } else {
        policy_ttl
    };
    let (sessions, expires_at) = worker_sessions(values, ttl, now, q.keyset_expires)?;
    Ok(
        PhalaEvidence {
            gateway_public_key_hex: gw,
            source_commit: commit,
            keyset_digest: q.keyset_digest.clone(),
            receipt_public_keys: keys,
            worker_sessions: sessions,
            expires_at,
        },
    )
}

fn receipts_checks(q: &GatewayQuote, commit: String, gw: String, now: u64) -> (r: Result<
    PhalaEvidence,
    CoreError,
>)
    ensures
        match receipts_stage(quote_facts(*q), commit@, gw@, now) {
            Ok(t) => r matches Ok(e) && evidence_view(e) == t,
            Err(m) => r matches Err(CoreError::Attestation(x)) && x@ == m,
        },
{
    proof {
        reveal_strlit("receipt_signing_keys");
    }
    let entries = match q.keyset.get("receipt_signing_keys") {
        Some(v) => match v.as_array() {
            Some(a) => a,
            None => {
                return Err(attestation_error("Phala gateway has no receipt keys"));
            },
        },
        None => {
            return Err(attestation_error("Phala gateway has no receipt keys"));
        },
    };
    let keys = receipt_keys(entries);
    if keys.len() == 0 {
        return Err(attestation_error("Phala has no valid receipt key"));
    }
    sessions_checks(q, commit, gw, keys, now)
}

proof fn lemma_e2ee_entry_range(entries: Seq<JsonValue>, i: int)
    ensures
        e2ee_entry_from(entries, i) matches Some(j) ==> 0 <= j < entries.len(),
    decreases entries.len() - i,
{
    if !(i < 0 || i >= entries.len()) && !approved_e2ee_entry(entries[i]) {
        lemma_e2ee_entry_range(entries, i + 1);
    }
}

fn find_e2ee_entry(entries: &Vec<JsonValue>) -> (r: Option<usize>)
    ensures
        r matches Some(i) ==> i < entries@.len() && e2ee_entry_from(entries@, 0) == Some(i as int),
        r is None ==> e2ee_entry_from(entries@, 0) is None,
{
    proof {
        reveal_strlit("key_id");
        reveal_strlit("algo");
        reveal_strlit("dstack-kms-e2ee-x25519-v1");
        reveal_strlit("x25519-aes-256-gcm-hkdf-sha256");
    }
    proof {
        lemma_e2ee_entry_range(entries@, 0);
    }
    let mut i: usize = 0;
    while i < entries.len()
        invariant
            i <= entries@.len(),
            e2ee_entry_from(entries@, i as int) == e2ee_entry_from(entries@, 0),
        decreases entries@.len() - i,
    {
        let e = &entries[i];
        let approved = e.as_object().is_some() && match e.get_str("key_id") {
            Some(k) => str_eq(k.as_str(), "dstack-kms-e2ee-x25519-v1"),
            None => false,
        } && match e.get_str("algo") {
            Some(a) => str_eq(a.as_str(), "x25519-aes-256-gcm-hkdf-sha256"),
            None => false,
        };
        if approved {
            return Some(i);
        }
        i = i + 1;
    }
    None
}

fn zeros(n: usize) -> (r: Vec<u8>)
    ensures
        r@ == zero_bytes(n as nat),
{
    let mut out: Vec<u8> = Vec::new();
    let mut i: usize = 0;
    while i < n
        invariant
            i <= n,
            out@ == zero_bytes(i as nat),
        decreases n - i,
    {
        out.push(0u8);
        i = i + 1;
        proof {
            assert(out@ =~= zero_bytes(i as nat));
        }
    }
    proof {
        assert(out@ =~= zero_bytes(n as nat));
    }
    out
}

fn key_checks(q: &GatewayQuote, commit: String, key_public: &str, now: u64) -> (r: Result<
    PhalaEvidence,
    CoreError,
>)
    ensures
        match key_stage(quote_facts(*q), commit@, key_public@, now) {
            Ok(t) => r matches Ok(e) && evidence_view(e) == t,
            Err(m) => r matches Err(CoreError::Attestation(x)) && x@ == m,
        },
{
    proof {
        reveal_strlit("e2ee_public_keys");
        reveal_strlit("public_key");
        reveal_strlit("key_id");
        reveal_strlit("algo");
        reveal_strlit("dstack-kms-e2ee-x25519-v1");
        reveal_strlit("x25519-aes-256-gcm-hkdf-sha256");
        reveal_strlit("gateway X25519 key");
    }
    let entries = match q.keyset.get("e2ee_public_keys") {
        Some(v) => match v.as_array() {
            Some(a) => a,
            None => {
                return Err(attestation_error("Phala gateway has no E2EE keys"));
            },
        },
        None => {
            return Err(attestation_error("Phala gateway has no E2EE keys"));
        },
    };
    let index = match find_e2ee_entry(entries) {
        Some(x) => x,
        None => {
            return Err(attestation_error("Phala gateway has no approved X25519 E2EE key"));
        },
    };
    let pk = match entries[index].get_str("public_key") {
        Some(p) => p,
        None => {
            return Err(attestation_error("Phala gateway has no approved X25519 E2EE key"));
        },
    };
    let gw = to_lowercase(pk.as_str());
    decode_32("gateway X25519 key", gw.as_str())?;
    if !str_eq(gw.as_str(), to_lowercase(key_public).as_str()) {
        return Err(attestation_error("Phala gateway key differs from the requested attested key"));
    }
    receipts_checks(q, commit, gw, now)
}

fn source_checks(q: &GatewayQuote, key_public: &str, now: u64) -> (r: Result<PhalaEvidence, CoreError>)
    ensures
        match source_stage(quote_facts(*q), key_public@, now) {
            Ok(t) => r matches Ok(e) && evidence_view(e) == t,
            Err(m) => r matches Err(CoreError::Attestation(x)) && x@ == m,
        },
{
    proof {
        reveal_strlit("source_provenance");
        reveal_strlit("repo_url");
        reveal_strlit("repo_commit");
        reveal_strlit("Phala ");
        reveal_strlit(" is missing");
        reveal_strlit("gateway source repository");
        reveal_strlit("Phala gateway source repository is missing");
        reveal_strlit("gateway source commit");
        reveal_strlit("Phala gateway source commit is missing");
    }
    let provenance = match q.attestation.get("source_provenance") {
        Some(p) => if p.as_object().is_some() {
            p
        } else {
            return Err(attestation_error("Phala gateway source provenance is missing"));
        },
        None => {
            return Err(attestation_error("Phala gateway source provenance is missing"));
        },
    };
    let repo = required_str(provenance, "repo_url", "gateway source repository")?;
    if !(str_eq(repo.as_str(), "https://github.com/Dstack-TEE/private-ai-gateway") || str_eq(
        repo.as_str(),
        "https://github.com/Dstack-TEE/private-ai-gateway.git",
    )) {
        return Err(attestation_error("Phala gateway source repository is not approved"));
    }
    let raw_commit = required_str(provenance, "repo_commit", "gateway source commit")?;
    let commit = to_lowercase(raw_commit.as_str());
    if !str_eq(commit.as_str(), APPROVED_GATEWAY_COMMIT) {
        return Err(attestation_error("Phala gateway source commit is not approved"));
    }
    key_checks(q, commit, key_public, now)
}

fn measurement_checks(q: &GatewayQuote, rt_mr3: &Vec<u8>, key_public: &str, now: u64) -> (r: Result<
    PhalaEvidence,
    CoreError,
>)
    ensures
        match measurement_stage(quote_facts(*q), rt_mr3@, key_public@, now) {
            Ok(t) => r matches Ok(e) && evidence_view(e) == t,
            Err(m) => r matches Err(CoreError::Attestation(x)) && x@ == m,
        },
{
    proof {
        reveal_strlit("event_log");
        reveal_strlit("app_compose");
        reveal_strlit("Phala ");
        reveal_strlit(" is missing");
        reveal_strlit("gateway event log");
        reveal_strlit("Phala gateway event log is missing");
        reveal_strlit("gateway compose file");
        reveal_strlit("Phala gateway compose file is missing");
    }
    let event_log = required_str(q.tdx_evidence, "event_log", "gateway event log")?;
    let app_compose = required_str(q.tdx_evidence, "app_compose", "gateway compose file")?;
    let (replayed, measured) = replay_rtmr3(event_log.as_str())?;
    if !bytes_eq(rt_mr3.as_slice(), &replayed) {
        return Err(attestation_error("Phala gateway event log does not replay to quoted RTMR3"));
    }
    let compose_hash = encode_hex(sha256_bytes(app_compose.as_str().as_bytes()).as_slice());
    if !str_eq(compose_hash.as_str(), measured.as_str()) {
        return Err(attestation_error("Phala gateway compose file is not measured by the quote"));
    }
    source_checks(q, key_public, now)
}

fn dcap_checks(q: &GatewayQuote, dcap: &Result<DcapReport, String>, key_public: &str, now: u64) -> (r: Result<
    PhalaEvidence,
    CoreError,
>)
    ensures
        match dcap_stage(quote_facts(*q), dcap_result_view(*dcap), key_public@, now) {
            Ok(t) => r matches Ok(e) && evidence_view(e) == t,
            Err(m) => r matches Err(CoreError::Attestation(x)) && x@ == m,
        },
{
    proof {
        reveal_strlit("UpToDate");
    }
    let report = match dcap {
        Ok(d) => d,
        Err(m) => {
            return Err(CoreError::Attestation(m.clone()));
        },
    };
    if !string_is(&report.status, "UpToDate") {
        let mut m = concat2("Phala gateway TDX status is ", report.status.as_str());
        m.append("; UpToDate is required");
        return Err(CoreError::Attestation(m));
    }
    let td = match &report.td10 {
        Some(t) => t,
        None => {
            return Err(attestation_error("Phala quote is not a supported TDX report"));
        },
    };
    let mut expected: Vec<u8> = Vec::new();
    extend_bytes(&mut expected, q.expected_report_data.as_slice());
    extend_bytes(&mut expected, zeros(32).as_slice());
    if !bytes_eq(td.report_data.as_slice(), expected.as_slice()) {
        return Err(attestation_error("Phala TDX quote does not bind the challenged keyset"));
    }
    measurement_checks(q, &td.rt_mr3, key_public, now)
}

pub open spec fn check_view(c: VerificationCheck) -> (Seq<char>, Seq<char>, Seq<char>, bool) {
    (c.id@, c.label@, c.status@, c.ok)
}

/// The checks a verified Phala model displays; the source row shows the commit's first 12
/// characters.
pub open spec fn phala_check_rows(commit: Seq<char>) -> Seq<(Seq<char>, Seq<char>, Seq<char>, bool)> {
    seq![
        ("gateway_tdx"@, "Gateway TDX"@, "UpToDate"@, true),
        ("gateway_source"@, "Gateway workload"@, commit.subrange(0, 12), true),
        ("gateway_keyset"@, "Encrypted channel"@, "nonce-bound"@, true),
        ("worker_tee"@, "Worker TEE"@, "asserted"@, true),
        ("worker_gpu"@, "Worker GPU"@, "asserted"@, true),
        ("receipt"@, "Signed receipt"@, "required"@, true),
    ]
}

fn phala_checks(commit: &str) -> (r: Vec<VerificationCheck>)
    requires
        commit@.len() >= 12,
    ensures
        r@.map_values(|c: VerificationCheck| check_view(c)) == phala_check_rows(commit@),
{
    let mut checks: Vec<VerificationCheck> = Vec::new();
    checks.push(VerificationCheck::new("gateway_tdx", "Gateway TDX", String::from_str("UpToDate"), true));
    checks.push(
        VerificationCheck::new(
            "gateway_source",
            "Gateway workload",
            String::from_str(commit.substring_char(0, 12)),
            true,
        ),
    );
    checks.push(
        VerificationCheck::new("gateway_keyset", "Encrypted channel", String::from_str("nonce-bound"), true),
    );
    checks.push(VerificationCheck::new("worker_tee", "Worker TEE", String::from_str("asserted"), true));
    checks.push(VerificationCheck::new("worker_gpu", "Worker GPU", String::from_str("asserted"), true));
    checks.push(VerificationCheck::new("receipt", "Signed receipt", String::from_str("required"), true));
    proof {
        assert(checks@.map_values(|c: VerificationCheck| check_view(c)) =~= phala_check_rows(commit@));
    }
    checks
}

/// Verifies a Phala model: the relay's key, the gateway's evidence, and the gateway's TDX quote
/// under Intel DCAP with the collateral the evidence carries (see `phala_model_check`). The result carries the gateway's key, the displayed checks,
/// the verified state for sessions and an expiry 15 s before the earliest of the keyset's and the
/// sessions'.
pub fn verify_phala_model(
    key: &ProviderE2eeKey,
    evidence: &ProviderAttestationEvidence,
    model_id: &str,
    expected_model: &str,
    base_url: &str,
    nonce: &str,
    now: u64,
) -> (r: Result<VerifiedModel, CoreError>)
    ensures
        match phala_model_check(
            *key,
            *evidence,
            model_id@,
            expected_model@,
            base_url@,
            nonce@,
            now,
        ) {
            Ok(t) => r matches Ok(vm) && vm.model_public_key_hex@ == t.0 && vm.tls_fingerprint is None
                && vm.checks@.map_values(|c: VerificationCheck| check_view(c)) == phala_check_rows(
                t.1,
            ) && opt_state_view(vm.provider_state) == Some((expected_model@, t.2, t.0, t.3, t.4))
                && vm.expires_at_unix == Some(if t.5 >= 15 {
                (t.5 - 15) as u64
            } else {
                0u64
            }),
            Err(m) => r matches Err(CoreError::Attestation(x)) && x@ == m,
        },
{
    let q = phala_gateway_quote(key, evidence, model_id, expected_model, base_url, nonce, now)?;
    let collateral = intel_collateral(q.bundle)?;
    let dcap = verify_gateway_quote(q.quote.as_slice(), &collateral, now);
    let e = dcap_checks(&q, &dcap, key.model_public_key.as_str(), now)?;
    proof {
        reveal_strlit("b6b5c1b82f6fc59490db5a5255bf4493805e66c6");
    }
    let checks = phala_checks(e.source_commit.as_str());
    let expires = if e.expires_at >= 15 {
        e.expires_at - 15
    } else {
        0
    };
    let gateway_key = e.gateway_public_key_hex.clone();
    Ok(
        VerifiedModel {
            model_public_key_hex: gateway_key,
            tls_fingerprint: None,
            checks,
            provider_state: Some(
                PhalaAttestationState {
                    model: String::from_str(expected_model),
                    keyset_digest: e.keyset_digest,
                    gateway_public_key_hex: e.gateway_public_key_hex,
                    receipt_public_keys: e.receipt_public_keys,
                    worker_sessions: e.worker_sessions,
                },
            ),
            expires_at_unix: Some(expires),
        },
    )
}


/// One Phala attestation challenge: a fresh random 32-byte nonce in hex, sent with the request for
/// the gateway's evidence and the only nonce that evidence is then verified against.
#[derive(Debug)]
pub struct PhalaChallenge {
    nonce: String,
}

impl PhalaChallenge {
    /// The challenge nonce.
    pub closed spec fn nonce_view(self) -> Seq<char> {
        self.nonce@
    }

    /// A challenge with a fresh random nonce: 64 lowercase hex characters.
    pub fn new() -> (r: Self)
        ensures
            exists|b: Seq<u8>| b.len() == 32 && r.nonce_view() == hex_encode(b),
            r.nonce_view().len() == 64,
    {
        let nonce = random_nonce_hex();
        PhalaChallenge { nonce }
    }

    /// The nonce to send with the evidence request.
    pub fn nonce(&self) -> (r: &str)
        ensures
            r@ == self.nonce_view(),
    {
        self.nonce.as_str()
    }

    /// Verifies the relay's key and the gateway's evidence, its quote under Intel DCAP included,
    /// against this challenge's nonce (see `verify_phala_model`).
    pub fn verify(
        &self,
        key: &ProviderE2eeKey,
        evidence: &ProviderAttestationEvidence,
        model_id: &str,
        expected_model: &str,
        base_url: &str,
        now: u64,
    ) -> (r: Result<VerifiedModel, CoreError>)
        ensures
            match phala_model_check(
                *key,
                *evidence,
                model_id@,
                expected_model@,
                base_url@,
                self.nonce_view(),
                now,
            ) {
                Ok(t) => r matches Ok(vm) && vm.model_public_key_hex@ == t.0 && vm.tls_fingerprint is None
                    && vm.checks@.map_values(|c: VerificationCheck| check_view(c)) == phala_check_rows(
                    t.1,
                ) && opt_state_view(vm.provider_state) == Some((expected_model@, t.2, t.0, t.3, t.4))
                    && vm.expires_at_unix == Some(if t.5 >= 15 {
                    (t.5 - 15) as u64
                } else {
                    0u64
                }),
                Err(m) => r matches Err(CoreError::Attestation(x)) && x@ == m,
            },
    {
        verify_phala_model(key, evidence, model_id, expected_model, base_url, self.nonce.as_str(), now)
    }
}

} // verus!
