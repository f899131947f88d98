//! Shared proxy state that is pure bookkeeping: request counters, catalog lookups, and the cache of
//! locally verified attestations with its freshness rule.

use vstd::prelude::*;

use crate::history::{clone_checks, clone_optional, same_check};
use crate::openai::opt_view;
use crate::provider::VerifiedModel;
use crate::relay::RelayModel;
use crate::text::str_eq;

use crate::gateway::{clone_optional_state, opt_state_view};

verus! {

/// Live request counters. Like the atomic counters they mirror, they wrap on overflow.
#[derive(Debug)]
pub struct Counters {
    pub total_requests: u64,
    pub active_requests: u32,
    pub prompt_tokens: u64,
    pub completion_tokens: u64,
}

impl Default for Counters {
    fn default() -> (r: Self)
        ensures
            r.total_requests == 0,
            r.active_requests == 0,
            r.prompt_tokens == 0,
            r.completion_tokens == 0,
    {
        Counters { total_requests: 0, active_requests: 0, prompt_tokens: 0, completion_tokens: 0 }
    }
}

impl Counters {
    /// A request started.
    pub fn record_start(&mut self)
        ensures
            final(self).total_requests == (old(self).total_requests + 1) % 0x1_0000_0000_0000_0000,
            final(self).active_requests == (old(self).active_requests + 1) % 0x1_0000_0000,
            final(self).prompt_tokens == old(self).prompt_tokens,
            final(self).completion_tokens == old(self).completion_tokens,
    {
        self.total_requests = self.total_requests.wrapping_add(1);
        self.active_requests = self.active_requests.wrapping_add(1);
    }

    /// A request finished with the given usage.
    pub fn record_finish(&mut self, prompt: u32, completion: u32)
        ensures
            final(self).total_requests == old(self).total_requests,
            final(self).active_requests == (old(self).active_requests + 0x1_0000_0000 - 1)
                % 0x1_0000_0000,
            final(self).prompt_tokens == (old(self).prompt_tokens + prompt) % 0x1_0000_0000_0000_0000,
            final(self).completion_tokens == (old(self).completion_tokens + completion)
                % 0x1_0000_0000_0000_0000,
    {
        self.active_requests = self.active_requests.wrapping_sub(1);
        self.prompt_tokens = self.prompt_tokens.wrapping_add(prompt as u64);
        self.completion_tokens = self.completion_tokens.wrapping_add(completion as u64);
    }
}

/// A start followed by its finish leaves the number of active requests unchanged.
pub proof fn law_start_finish_balances(active: u32)
    ensures
        ((((active + 1) % 0x1_0000_0000) + 0x1_0000_0000 - 1) % 0x1_0000_0000) == active,
{
}

/// Two catalog entries with equal contents.
pub open spec fn same_model(a: RelayModel, b: RelayModel) -> bool {
    &&& a.id@ == b.id@
    &&& a.label@ == b.label@
    &&& a.short_label@ == b.short_label@
    &&& a.model@ == b.model@
    &&& a.base_url@ == b.base_url@
    &&& a.provider@ == b.provider@
    &&& a.e2ee_protocol@ == b.e2ee_protocol@
    &&& a.e2ee_encryption_version == b.e2ee_encryption_version
    &&& a.attestation_protocol@ == b.attestation_protocol@
    &&& a.supported_reasoning_efforts@.len() == b.supported_reasoning_efforts@.len()
    &&& forall|i: int|
        0 <= i < a.supported_reasoning_efforts@.len() ==> (#[trigger] a.supported_reasoning_efforts@[i])@
            == b.supported_reasoning_efforts@[i]@
}

pub fn clone_strings(v: &Vec<String>) -> (r: Vec<String>)
    ensures
        r@.len() == v@.len(),
        forall|i: int| 0 <= i < v@.len() ==> (#[trigger] r@[i])@ == v@[i]@,
{
    let mut out: Vec<String> = Vec::new();
    let mut i: usize = 0;
    while i < v.len()
        invariant
            i <= v@.len(),
            out@.len() == i,
            forall|k: int| 0 <= k < i ==> (#[trigger] out@[k])@ == v@[k]@,
        decreases v@.len() - i,
    {
        out.push(v[i].clone());
        i = i + 1;
    }
    out
}

pub fn clone_model(m: &RelayModel) -> (r: RelayModel)
    ensures
        same_model(r, *m),
{
    RelayModel {
        id: m.id.clone(),
        label: m.label.clone(),
        short_label: m.short_label.clone(),
        model: m.model.clone(),
        base_url: m.base_url.clone(),
        provider: m.provider.clone(),
        supported_reasoning_efforts: clone_strings(&m.supported_reasoning_efforts),
        e2ee_protocol: m.e2ee_protocol.clone(),
        e2ee_encryption_version: m.e2ee_encryption_version,
        attestation_protocol: m.attestation_protocol.clone(),
    }
}

/// Whether a client-supplied model string names this entry: its id, its full model name, or its
/// base URL.
pub open spec fn names_model(m: RelayModel, requested: Seq<char>) -> bool {
    m.id@ == requested || m.model@ == requested || m.base_url@ == requested
}

/// The first catalog entry the requested model string names.
pub fn match_model(models: &[RelayModel], requested: &str) -> (r: Option<RelayModel>)
    ensures
        r is None <==> forall|i: int| 0 <= i < models@.len() ==> !names_model(#[trigger] models@[i], requested@),
        r matches Some(m) ==> exists|i: int|
            0 <= i < models@.len() && names_model(#[trigger] models@[i], requested@) && same_model(m, models@[i])
                && forall|j: int| 0 <= j < i ==> !names_model(#[trigger] models@[j], requested@),
{
    let mut i: usize = 0;
    while i < models.len()
        invariant
            i <= models@.len(),
            forall|j: int| 0 <= j < i ==> !names_model(#[trigger] models@[j], requested@),
        decreases models@.len() - i,
    {
        let m = &models[i];
        if str_eq(m.id.as_str(), requested) || str_eq(m.model.as_str(), requested) || str_eq(
            m.base_url.as_str(),
            requested,
        ) {
            return Some(clone_model(m));
        }
        i = i + 1;
    }
    None
}

/// The catalog entry with the given id.
pub fn find_model(models: &[RelayModel], model_id: &str) -> (r: Option<RelayModel>)
    ensures
        r is None <==> forall|i: int| 0 <= i < models@.len() ==> (#[trigger] models@[i]).id@ != model_id@,
        r matches Some(m) ==> exists|i: int|
            0 <= i < models@.len() && (#[trigger] models@[i]).id@ == model_id@ && same_model(m, models@[i])
                && forall|j: int| 0 <= j < i ==> (#[trigger] models@[j]).id@ != model_id@,
{
    let mut i: usize = 0;
    while i < models.len()
        invariant
            i <= models@.len(),
            forall|j: int| 0 <= j < i ==> (#[trigger] models@[j]).id@ != model_id@,
        decreases models@.len() - i,
    {
        if str_eq(models[i].id.as_str(), model_id) {
            return Some(clone_model(&models[i]));
        }
        i = i + 1;
    }
    None
}

// ---- the attestation cache ----

/// Two verified models with equal contents.
pub open spec fn same_verified(a: VerifiedModel, b: VerifiedModel) -> bool {
    &&& a.model_public_key_hex@ == b.model_public_key_hex@
    &&& opt_view(a.tls_fingerprint) == opt_view(b.tls_fingerprint)
    &&& opt_state_view(a.provider_state) == opt_state_view(b.provider_state)
    &&& a.expires_at_unix == b.expires_at_unix
    &&& a.checks@.len() == b.checks@.len()
    &&& forall|i: int| 0 <= i < a.checks@.len() ==> same_check(#[trigger] a.checks@[i], b.checks@[i])
}

pub fn clone_verified(v: &VerifiedModel) -> (r: VerifiedModel)
    ensures
        same_verified(r, *v),
{
    VerifiedModel {
        model_public_key_hex: v.model_public_key_hex.clone(),
        tls_fingerprint: clone_optional(&v.tls_fingerprint),
        checks: clone_checks(&v.checks),
        provider_state: clone_optional_state(&v.provider_state),
        expires_at_unix: v.expires_at_unix,
    }
}

/// A locally verified attestation: when it was verified on the monotonic clock (`at_ms`) and on
/// the wall clock.
#[derive(Debug)]
pub struct CachedAttestation {
    pub verified: VerifiedModel,
    pub at_ms: u64,
    pub verified_at_unix_ms: u64,
}

/// A cached attestation handed to a request, with its age.
#[derive(Debug)]
pub struct AttestationReceipt {
    pub verified: VerifiedModel,
    pub verified_at_unix_ms: u64,
    pub age_ms: u64,
}

/// Milliseconds elapsed from `at` to `now` (zero when the clock reads earlier).
pub open spec fn elapsed(at: u64, now: u64) -> u64 {
    if now >= at {
        (now - at) as u64
    } else {
        0
    }
}

/// An attestation is used only while younger than the cache TTL.
pub open spec fn is_fresh(at: u64, now: u64, ttl_ms: u64) -> bool {
    elapsed(at, now) < ttl_ms
}

/// The provider's hard expiry has not passed at Unix second `now_unix`.
pub open spec fn not_expired(v: VerifiedModel, now_unix: u64) -> bool {
    match v.expires_at_unix {
        Some(t) => now_unix < t,
        None => true,
    }
}

/// A cached attestation is served only while younger than the TTL and before the hard expiry
/// its verified evidence imposes.
pub open spec fn usable(c: CachedAttestation, now_ms: u64, ttl_ms: u64, now_unix: u64) -> bool {
    is_fresh(c.at_ms, now_ms, ttl_ms) && not_expired(c.verified, now_unix)
}

/// Verified attestations by model id; each id appears at most once.
#[derive(Debug)]
pub struct AttestationCache {
    entries: Vec<(String, CachedAttestation)>,
}

pub open spec fn keys_unique(e: Seq<(String, CachedAttestation)>) -> bool {
    forall|i: int, j: int| 0 <= i < j < e.len() ==> (#[trigger] e[i]).0@ != (#[trigger] e[j]).0@
}

/// The cached attestation of a model id, if any.
pub open spec fn cached_for(e: Seq<(String, CachedAttestation)>, id: Seq<char>) -> Option<CachedAttestation> {
    if exists|i: int| 0 <= i < e.len() && (#[trigger] e[i]).0@ == id {
        Some(e[choose|i: int| 0 <= i < e.len() && (#[trigger] e[i]).0@ == id].1)
    } else {
        None
    }
}

/// `item` is a copy of a usable cached attestation of its model id.
pub open spec fn fresh_copy(e: Seq<(String, CachedAttestation)>, item: (String, VerifiedModel), now_ms: u64, ttl_ms: u64, now_unix: u64) -> bool {
    match cached_for(e, item.0@) {
        Some(c) => usable(c, now_ms, ttl_ms, now_unix) && same_verified(item.1, c.verified),
        None => false,
    }
}

impl AttestationCache {
    pub closed spec fn view(self) -> Seq<(String, CachedAttestation)> {
        self.entries@
    }

    #[verifier::type_invariant]
    spec fn unique(self) -> bool {
        keys_unique(self.entries@)
    }

    pub fn new() -> (r: Self)
        ensures
            forall|id: Seq<char>| cached_for(r.view(), id) is None,
    {
        AttestationCache { entries: Vec::new() }
    }

    fn position(&self, model_id: &str) -> (r: Option<usize>)
        ensures
            r matches Some(i) ==> i < self.view().len() && self.view()[i as int].0@ == model_id@
                && cached_for(self.view(), model_id@) == Some(self.view()[i as int].1),
            r is None ==> cached_for(self.view(), model_id@) is None,
    {
        proof {
            use_type_invariant(self);
        }
        let mut i: usize = 0;
        while i < self.entries.len()
            invariant
                i <= self.entries@.len(),
                keys_unique(self.entries@),
                forall|j: int| 0 <= j < i ==> (#[trigger] self.entries@[j]).0@ != model_id@,
            decreases self.entries@.len() - i,
        {
            if str_eq(self.entries[i].0.as_str(), model_id) {
                proof {
                    let k = choose|k: int|
                        0 <= k < self.entries@.len() && (#[trigger] self.entries@[k]).0@ == model_id@;
                    assert(k == i);
                }
                return Some(i);
            }
            i = i + 1;
        }
        None
    }

    /// The cached attestation of a model while it is younger than the TTL and not past its
    /// provider's expiry (`now_unix` is the Unix time in seconds), with its age.
    pub fn lookup(&self, model_id: &str, now_ms: u64, ttl_ms: u64, now_unix: u64) -> (r: Option<AttestationReceipt>)
        ensures
            match cached_for(self.view(), model_id@) {
                Some(c) => if usable(c, now_ms, ttl_ms, now_unix) {
                    r matches Some(rc) && same_verified(rc.verified, c.verified)
                        && rc.verified_at_unix_ms == c.verified_at_unix_ms && rc.age_ms == elapsed(
                        c.at_ms,
                        now_ms,
                    )
                } else {
                    r is None
                },
                None => r is None,
            },
    {
        match self.position(model_id) {
            Some(i) => {
                let c = &self.entries[i].1;
                let age = if now_ms >= c.at_ms {
                    now_ms - c.at_ms
                } else {
                    0
                };
                let live = match c.verified.expires_at_unix {
                    Some(t) => now_unix < t,
                    None => true,
                };
                if age < ttl_ms && live {
                    Some(
                        AttestationReceipt {
                            verified: clone_verified(&c.verified),
                            verified_at_unix_ms: c.verified_at_unix_ms,
                            age_ms: age,
                        },
                    )
                } else {
                    None
                }
            },
            None => None,
        }
    }

    /// Records a fresh verification of a model, replacing any earlier one.
    pub fn insert(&mut self, model_id: String, verified: VerifiedModel, now_ms: u64, verified_at_unix_ms: u64)
        ensures
            cached_for(final(self).view(), model_id@) == Some(
                CachedAttestation { verified, at_ms: now_ms, verified_at_unix_ms },
            ),
            forall|id: Seq<char>|
                id != model_id@ ==> #[trigger] cached_for(final(self).view(), id) == cached_for(
                    old(self).view(),
                    id,
                ),
    {
        proof {
            use_type_invariant(&*self);
        }
        let ghost id = model_id@;
        let pos = self.position(model_id.as_str());
        let mut entries: Vec<(String, CachedAttestation)> = Vec::new();
        std::mem::swap(&mut entries, &mut self.entries);
        let ghost before = entries@;
        let i: usize = match pos {
            Some(i) => {
                entries.remove(i);
                i
            },
            None => entries.len(),
        };
        let ghost kept = entries@;
        proof {
            assert(keys_unique(before));
            if pos is None {
                assert forall|k: int| 0 <= k < before.len() implies (#[trigger] before[k]).0@ != id by {
                    if before[k].0@ == id {
                        assert(exists|k2: int| 0 <= k2 < before.len() && (#[trigger] before[k2]).0@ == id);
                    }
                }
            }
            assert forall|a: int, b: int| 0 <= a < b < kept.len() implies (#[trigger] kept[a]).0@
                != (#[trigger] kept[b]).0@ by {
                if i < before.len() {
                    let a0 = if a < i {
                        a
                    } else {
                        a + 1
                    };
                    let b0 = if b < i {
                        b
                    } else {
                        b + 1
                    };
                    assert(kept[a] == before[a0]);
                    assert(kept[b] == before[b0]);
                }
            }
            assert forall|k: int| 0 <= k < kept.len() implies (#[trigger] kept[k]).0@ != id by {
                if i < before.len() {
                    let k0 = if k < i {
                        k
                    } else {
                        k + 1
                    };
                    assert(kept[k] == before[k0]);
                    assert(before[i as int].0@ == id);
                    if k0 != i {
                        assert(before[k0].0@ != before[i as int].0@);
                    }
                }
            }
        }
        entries.push((model_id, CachedAttestation { verified, at_ms: now_ms, verified_at_unix_ms }));
        proof {
            let after = entries@;
            let n = after.len() - 1;
            assert(after[n].0@ == id);
            assert forall|id2: Seq<char>| id2 != id implies #[trigger] cached_for(after, id2)
                == cached_for(before, id2) by {
                if exists|k: int| 0 <= k < before.len() && (#[trigger] before[k]).0@ == id2 {
                    let k = choose|k: int| 0 <= k < before.len() && (#[trigger] before[k]).0@ == id2;
                    assert(k != i);
                    let k1 = if k < i {
                        k
                    } else {
                        k - 1
                    };
                    assert(after[k1] == before[k]);
                    let c = choose|c: int| 0 <= c < after.len() && (#[trigger] after[c]).0@ == id2;
                    assert(c == k1);
                } else {
                    assert forall|c: int| 0 <= c < after.len() implies (#[trigger] after[c]).0@ != id2 by {
                        if c < n {
                            let c0 = if c < i {
                                c
                            } else {
                                c + 1
                            };
                            assert(after[c] == before[c0]);
                        }
                    }
                }
            }
            let c = choose|c: int| 0 <= c < after.len() && (#[trigger] after[c]).0@ == id;
            assert(c == n);
        }
        self.entries = entries;
    }

    /// Caches a model's fresh verification made at `now_ms` and hands it out as a receipt of age
    /// zero.
    pub fn record(&mut self, model_id: String, verified: VerifiedModel, now_ms: u64, verified_at_unix_ms: u64) -> (r: AttestationReceipt)
        ensures
            same_verified(r.verified, verified),
            r.verified_at_unix_ms == verified_at_unix_ms,
            r.age_ms == 0,
            cached_for(final(self).view(), model_id@) matches Some(c) && same_verified(c.verified, verified)
                && c.at_ms == now_ms && c.verified_at_unix_ms == verified_at_unix_ms,
            forall|id: Seq<char>|
                id != model_id@ ==> #[trigger] cached_for(final(self).view(), id) == cached_for(
                    old(self).view(),
                    id,
                ),
    {
        let kept = clone_verified(&verified);
        self.insert(model_id, kept, now_ms, verified_at_unix_ms);
        AttestationReceipt { verified, verified_at_unix_ms, age_ms: 0 }
    }

    /// Drops a model's cached attestation so it is verified again.
    pub fn invalidate(&mut self, model_id: &str)
        ensures
            cached_for(final(self).view(), model_id@) is None,
            forall|id: Seq<char>|
                id != model_id@ ==> #[trigger] cached_for(final(self).view(), id) == cached_for(
                    old(self).view(),
                    id,
                ),
    {
        proof {
            use_type_invariant(&*self);
        }
        match self.position(model_id) {
            None => {},
            Some(i) => {
                let mut entries: Vec<(String, CachedAttestation)> = Vec::new();
                std::mem::swap(&mut entries, &mut self.entries);
                let ghost before = entries@;
                entries.remove(i);
                proof {
                    let after = entries@;
                    assert forall|a: int, b: int| 0 <= a < b < after.len() implies (#[trigger] after[a]).0@
                        != (#[trigger] after[b]).0@ by {
                        let a0 = if a < i {
                            a
                        } else {
                            a + 1
                        };
                        let b0 = if b < i {
                            b
                        } else {
                            b + 1
                        };
                        assert(after[a] == before[a0]);
                        assert(after[b] == before[b0]);
                    }
                    assert forall|c: int| 0 <= c < after.len() implies (#[trigger] after[c]).0@
                        != model_id@ by {
                        let c0 = if c < i {
                            c
                        } else {
                            c + 1
                        };
                        assert(after[c] == before[c0]);
                    }
                    assert forall|id2: Seq<char>| id2 != model_id@ implies #[trigger] cached_for(after, id2)
                        == cached_for(before, id2) by {
                        if exists|k: int| 0 <= k < before.len() && (#[trigger] before[k]).0@ == id2 {
                            let k = choose|k: int| 0 <= k < before.len() && (#[trigger] before[k]).0@ == id2;
                            let k1 = if k < i {
                                k
                            } else {
                                k - 1
                            };
                            assert(after[k1] == before[k]);
                            let c = choose|c: int| 0 <= c < after.len() && (#[trigger] after[c]).0@ == id2;
                            assert(c == k1);
                        } else {
                            assert forall|c: int| 0 <= c < after.len() implies (#[trigger] after[c]).0@ != id2 by {
                                let c0 = if c < i {
                                    c
                                } else {
                                    c + 1
                                };
                                assert(after[c] == before[c0]);
                            }
                        }
                    }
                }
                self.entries = entries;
            },
        }
    }

    /// The model ids and verified models of the attestations that are still usable.
    pub fn fresh(&self, now_ms: u64, ttl_ms: u64, now_unix: u64) -> (r: Vec<(String, VerifiedModel)>)
        ensures
            forall|k: int| 0 <= k < r@.len() ==> fresh_copy(self.view(), #[trigger] r@[k], now_ms, ttl_ms, now_unix),
            forall|i: int|
                0 <= i < self.view().len() && usable(#[trigger] self.view()[i].1, now_ms, ttl_ms, now_unix)
                    ==> exists|k: int| 0 <= k < r@.len() && (#[trigger] r@[k]).0@ == self.view()[i].0@,
    {
        proof {
            use_type_invariant(self);
        }
        let mut out: Vec<(String, VerifiedModel)> = Vec::new();
        let mut i: usize = 0;
        while i < self.entries.len()
            invariant
                i <= self.entries@.len(),
                keys_unique(self.entries@),
                forall|k: int| 0 <= k < out@.len() ==> fresh_copy(self.entries@, #[trigger] out@[k], now_ms, ttl_ms, now_unix),
                forall|j: int|
                    0 <= j < i && usable(#[trigger] self.entries@[j].1, now_ms, ttl_ms, now_unix) ==> exists|k: int|
                        0 <= k < out@.len() && (#[trigger] out@[k]).0@ == self.entries@[j].0@,
            decreases self.entries@.len() - i,
        {
            let entry = &self.entries[i];
            let age = if now_ms >= entry.1.at_ms {
                now_ms - entry.1.at_ms
            } else {
                0
            };
            let live = match entry.1.verified.expires_at_unix {
                Some(t) => now_unix < t,
                None => true,
            };
            if age < ttl_ms && live {
                proof {
                    let k = choose|k: int|
                        0 <= k < self.entries@.len() && (#[trigger] self.entries@[k]).0@ == entry.0@;
                    assert(k == i);
                }
                let ghost old_out = out@;
                out.push((entry.0.clone(), clone_verified(&entry.1.verified)));
                proof {
                    assert(out@[out@.len() - 1].0@ == self.entries@[i as int].0@);
                    assert forall|j: int|
                        0 <= j < i + 1 && usable(#[trigger] self.entries@[j].1, now_ms, ttl_ms, now_unix)
                            implies exists|k: int|
                        0 <= k < out@.len() && (#[trigger] out@[k]).0@ == self.entries@[j].0@ by {
                        if j < i {
                            let k = choose|k: int|
                                0 <= k < old_out.len() && (#[trigger] old_out[k]).0@ == self.entries@[j].0@;
                            assert(out@[k] == old_out[k]);
                        } else {
                            assert(out@[out@.len() - 1].0@ == self.entries@[j].0@);
                        }
                    }
                    assert forall|k: int| 0 <= k < out@.len() implies fresh_copy(self.entries@, #[trigger] out@[k], now_ms, ttl_ms, now_unix) by {
                        if k < old_out.len() {
                            assert(out@[k] == old_out[k]);
                        }
                    }
                }
            }
            i = i + 1;
        }
        out
    }
}

/// What the cache serves of a recorded verification: while it is younger than the TTL and before
/// its provider's expiry, a lookup of its model is a hit with the recorded wall-clock time and
/// the age elapsed since it was recorded.
pub proof fn law_recorded_attestation_is_served(
    e: Seq<(String, CachedAttestation)>,
    model_id: Seq<char>,
    at_ms: u64,
    now_ms: u64,
    ttl_ms: u64,
    now_unix: u64,
)
    requires
        cached_for(e, model_id) matches Some(c) && c.at_ms == at_ms,
        at_ms <= now_ms,
        now_ms - at_ms < ttl_ms,
        not_expired(cached_for(e, model_id)->0.verified, now_unix),
    ensures
        cached_for(e, model_id) matches Some(c) && usable(c, now_ms, ttl_ms, now_unix) && elapsed(
            c.at_ms,
            now_ms,
        ) == now_ms - at_ms,
{
}

} // verus!
