//! Providers: each upstream E2EE TEE provider has an attestation protocol and a cipher protocol
//! with an encryption version. The registry maps provider ids to those contracts and checks that
//! a relay model names a known provider and exactly that provider's protocols.

use vstd::prelude::*;

use crate::error::CoreError;
use crate::gateway::PhalaAttestationState;
use crate::relay::RelayModel;
use crate::text::{concat2, str_eq, string_is};

verus! {

/// One named attestation check, for display. A model is only usable when its attestor succeeded;
/// the checks let the UI render provider-appropriate proof rows.
#[derive(Debug)]
pub struct VerificationCheck {
    pub id: String,
    pub label: String,
    pub status: String,
    pub ok: bool,
}

impl VerificationCheck {
    pub fn new(id: &str, label: &str, status: String, ok: bool) -> (r: Self)
        ensures
            r.id@ == id@,
            r.label@ == label@,
            r.status@ == status@,
            r.ok == ok,
    {
        VerificationCheck { id: String::from_str(id), label: String::from_str(label), status, ok }
    }
}

impl Clone for VerificationCheck {
    fn clone(&self) -> (r: Self)
        ensures
            r.id@ == self.id@,
            r.label@ == self.label@,
            r.status@ == self.status@,
            r.ok == self.ok,
    {
        VerificationCheck {
            id: self.id.clone(),
            label: self.label.clone(),
            status: self.status.clone(),
            ok: self.ok,
        }
    }
}

/// The result of a full, successful verification: the model key, the ordered checks that passed,
/// and, for providers that keep it, their locally verified public state and the hard expiry of
/// the evidence.
#[derive(Debug)]
pub struct VerifiedModel {
    pub model_public_key_hex: String,
    pub tls_fingerprint: Option<String>,
    pub checks: Vec<VerificationCheck>,
    pub provider_state: Option<PhalaAttestationState>,
    pub expires_at_unix: Option<u64>,
}

/// Plaintext message metadata used only inside the local process to compute a provider receipt
/// hash; never sent to the relay.
#[derive(Debug)]
pub struct PlainProviderMessage {
    pub role: String,
    pub content: Option<String>,
    pub assistant_null_content: bool,
    pub has_extended_fields: bool,
}

/// Plaintext request metadata for receipt binding. `sampling` holds the sampling options as
/// (name, compact JSON value) members; `response_format` is compact JSON text.
#[derive(Debug)]
pub struct PlainProviderRequest {
    pub model: String,
    pub messages: Vec<PlainProviderMessage>,
    pub max_tokens: u32,
    pub stream: bool,
    pub sampling: Option<Vec<(String, String)>>,
    pub response_format: Option<String>,
    pub reasoning_effort: Option<String>,
    pub has_tools: bool,
}

#[derive(Debug)]
pub struct DecryptedProviderCompletion {
    pub content: Option<String>,
    pub reasoning_content: Option<String>,
    pub refusal: Option<String>,
}

impl Default for DecryptedProviderCompletion {
    fn default() -> (r: Self)
        ensures
            r.content is None,
            r.reasoning_content is None,
            r.refusal is None,
    {
        DecryptedProviderCompletion { content: None, reasoning_content: None, refusal: None }
    }
}

/// What a provider engine promises: its id, its attestation protocol, and its cipher protocol
/// with the encryption version.
#[derive(Debug)]
pub struct ProviderEngine {
    pub id: String,
    pub attestation_protocol: String,
    pub e2ee_protocol: String,
    pub encryption_version: u8,
}

/// The providers by id; ids are unique.
#[derive(Debug)]
pub struct ProviderRegistry {
    engines: Vec<ProviderEngine>,
}

pub open spec fn ids_unique(engines: Seq<ProviderEngine>) -> bool {
    forall|i: int, j: int|
        0 <= i < j < engines.len() ==> (#[trigger] engines[i]).id@ != (#[trigger] engines[j]).id@
}

/// The position of the engine with id `id`, if any.
pub open spec fn engine_index(engines: Seq<ProviderEngine>, id: Seq<char>) -> Option<int> {
    if exists|i: int| 0 <= i < engines.len() && (#[trigger] engines[i]).id@ == id {
        Some(choose|i: int| 0 <= i < engines.len() && (#[trigger] engines[i]).id@ == id)
    } else {
        None
    }
}

/// Whether a relay model names exactly the protocols of `engine`.
pub open spec fn contract_matches(model: RelayModel, engine: ProviderEngine) -> bool {
    &&& model.e2ee_protocol@ == engine.e2ee_protocol@
    &&& model.e2ee_encryption_version == engine.encryption_version
    &&& model.attestation_protocol@ == engine.attestation_protocol@
}

impl ProviderRegistry {
    /// The registered engines, in registration order.
    pub closed spec fn engines(self) -> Seq<ProviderEngine> {
        self.engines@
    }

    #[verifier::type_invariant]
    spec fn unique(self) -> bool {
        ids_unique(self.engines@)
    }

    /// A registry of the given engines; refused when two share an id.
    pub fn new(engines: Vec<ProviderEngine>) -> (r: Result<Self, CoreError>)
        ensures
            ids_unique(engines@) <==> r is Ok,
            r matches Ok(reg) ==> reg.engines() == engines@,
            r matches Err(e) ==> (e matches CoreError::Provider(m) && m@ == "duplicate provider id"@),
    {
        let n = engines.len();
        let mut i: usize = 0;
        while i < n
            invariant
                n == engines@.len(),
                i <= n,
                forall|a: int, b: int|
                    0 <= a < b < i ==> (#[trigger] engines@[a]).id@ != (#[trigger] engines@[b]).id@,
            decreases n - i,
        {
            let mut j: usize = 0;
            while j < i
                invariant
                    n == engines@.len(),
                    j <= i < n,
                    forall|a: int| 0 <= a < j ==> (#[trigger] engines@[a]).id@ != engines@[i as int].id@,
                decreases i - j,
            {
                if str_eq(engines[j].id.as_str(), engines[i].id.as_str()) {
                    return Err(CoreError::Provider(String::from_str("duplicate provider id")));
                }
                j = j + 1;
            }
            i = i + 1;
        }
        Ok(ProviderRegistry { engines })
    }

    fn position(&self, provider_id: &str) -> (r: Option<usize>)
        ensures
            r matches Some(i) ==> i < self.engines().len() && self.engines()[i as int].id@
                == provider_id@,
            r is None ==> engine_index(self.engines(), provider_id@) is None,
    {
        let mut i: usize = 0;
        while i < self.engines.len()
            invariant
                i <= self.engines@.len(),
                forall|a: int| 0 <= a < i ==> (#[trigger] self.engines@[a]).id@ != provider_id@,
            decreases self.engines@.len() - i,
        {
            if str_eq(self.engines[i].id.as_str(), provider_id) {
                return Some(i);
            }
            i = i + 1;
        }
        None
    }

    /// The engine registered under `provider_id`.
    pub fn get(&self, provider_id: &str) -> (r: Result<&ProviderEngine, CoreError>)
        ensures
            engine_index(self.engines(), provider_id@) matches Some(i) ==> (r matches Ok(e) && *e
                == self.engines()[i]),
            engine_index(self.engines(), provider_id@) is None ==> (r matches Err(
                CoreError::Provider(m),
            ) && m@ == "unknown provider: "@ + provider_id@),
    {
        proof {
            use_type_invariant(self);
        }
        match self.position(provider_id) {
            Some(i) => {
                proof {
                    let k = engine_index(self.engines(), provider_id@)->0;
                    assert(self.engines()[i as int].id@ == provider_id@);
                    assert(k == i);
                }
                Ok(&self.engines[i])
            },
            None => Err(CoreError::Provider(concat2("unknown provider: ", provider_id))),
        }
    }

    pub fn contains(&self, provider_id: &str) -> (r: bool)
        ensures
            r == (engine_index(self.engines(), provider_id@) is Some),
    {
        match self.position(provider_id) {
            Some(_) => true,
            None => false,
        }
    }

    /// The engine for a relay model: its provider must be registered and the model must name that
    /// provider's protocols and encryption version exactly.
    pub fn for_model(&self, model: &RelayModel) -> (r: Result<&ProviderEngine, CoreError>)
        ensures
            engine_index(self.engines(), model.provider@) is None ==> (r matches Err(
                CoreError::Provider(m),
            ) && m@ == "unknown provider: "@ + model.provider@),
            engine_index(self.engines(), model.provider@) matches Some(i) ==> if contract_matches(
                *model,
                self.engines()[i],
            ) {
                r matches Ok(e) && *e == self.engines()[i]
            } else {
                r matches Err(CoreError::Provider(m)) && m@ == "provider contract mismatch for model "@
                    + model.id@
            },
    {
        let engine = self.get(model.provider.as_str())?;
        if !str_eq(model.e2ee_protocol.as_str(), engine.e2ee_protocol.as_str())
            || model.e2ee_encryption_version != engine.encryption_version || !str_eq(
            model.attestation_protocol.as_str(),
            engine.attestation_protocol.as_str(),
        ) {
            return Err(
                CoreError::Provider(
                    concat2("provider contract mismatch for model ", model.id.as_str()),
                ),
            );
        }
        Ok(engine)
    }

    /// The built-in providers: NEAR and Phala.
    pub fn builtin() -> (r: Self)
        ensures
            r.engines().len() == 2,
            r.engines()[0].id@ == "near"@,
            r.engines()[1].id@ == "phala"@,
    {
        let near = ProviderEngine {
            id: String::from_str("near"),
            attestation_protocol: String::from_str("near-tdx-nvidia-v1"),
            e2ee_protocol: String::from_str("near-v2"),
            encryption_version: 2,
        };
        let phala = ProviderEngine {
            id: String::from_str("phala"),
            attestation_protocol: String::from_str("phala-aci-tdx-v1"),
            e2ee_protocol: String::from_str("phala-aci-v2"),
            encryption_version: 2,
        };
        proof {
            reveal_strlit("near");
            reveal_strlit("phala");
        }
        let mut engines: Vec<ProviderEngine> = Vec::new();
        engines.push(near);
        engines.push(phala);
        proof {
            reveal_strlit("near");
            reveal_strlit("phala");
            assert("near"@.len() == 4);
            assert("phala"@.len() == 5);
            assert(engines@[0].id@ != engines@[1].id@);
        }
        ProviderRegistry { engines }
    }
}

impl Default for ProviderRegistry {
    fn default() -> (r: Self)
        ensures
            r.engines().len() == 2,
            r.engines()[0].id@ == "near"@,
            r.engines()[1].id@ == "phala"@,
    {
        Self::builtin()
    }
}

} // verus!
