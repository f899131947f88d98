//! Intel DCAP verification of the Phala gateway's TDX quote: the collateral the evidence bundle
//! carries, and the quote verifier's verdict on the quote under that collateral.

use vstd::prelude::*;

use dcap_qvl::verify::VerifiedReport;
use dcap_qvl::QuoteCollateralV3;

use crate::error::CoreError;
use crate::gateway::{DcapReport, TdReport};
use crate::hex::{decode_hex, hex_decode, hex_error_text};
use crate::openai::opt_view;
use crate::text::{concat2, concat3, strip_0x, strip_0x_str};
use crate::value::JsonValue;

verus! {

/// dcap-qvl's collateral for a quote, opaque here.
#[verifier::external_type_specification]
#[verifier::external_body]
pub struct ExQuoteCollateralV3(QuoteCollateralV3);

/// dcap-qvl's verified report, opaque here.
#[verifier::external_type_specification]
#[verifier::external_body]
pub struct ExVerifiedReport(VerifiedReport);

/// Intel's collateral for verifying a TDX quote: the issuer chains, CRLs, TCB info and QE identity
/// with their signatures, and optionally the PCK certificate chain.
#[derive(Debug)]
pub struct IntelCollateral {
    pub pck_crl_issuer_chain: String,
    pub root_ca_crl: Vec<u8>,
    pub pck_crl: Vec<u8>,
    pub tcb_info_issuer_chain: String,
    pub tcb_info: String,
    pub tcb_info_signature: Vec<u8>,
    pub qe_identity_issuer_chain: String,
    pub qe_identity: String,
    pub qe_identity_signature: Vec<u8>,
    pub pck_certificate_chain: Option<String>,
}

/// The contents of Intel collateral.
pub struct CollateralView {
    pub pck_crl_issuer_chain: Seq<char>,
    pub root_ca_crl: Seq<u8>,
    pub pck_crl: Seq<u8>,
    pub tcb_info_issuer_chain: Seq<char>,
    pub tcb_info: Seq<char>,
    pub tcb_info_signature: Seq<u8>,
    pub qe_identity_issuer_chain: Seq<char>,
    pub qe_identity: Seq<char>,
    pub qe_identity_signature: Seq<u8>,
    pub pck_certificate_chain: Option<Seq<char>>,
}

impl View for IntelCollateral {
    type V = CollateralView;

    open spec fn view(&self) -> CollateralView {
        CollateralView {
            pck_crl_issuer_chain: self.pck_crl_issuer_chain@,
            root_ca_crl: self.root_ca_crl@,
            pck_crl: self.pck_crl@,
            tcb_info_issuer_chain: self.tcb_info_issuer_chain@,
            tcb_info: self.tcb_info@,
            tcb_info_signature: self.tcb_info_signature@,
            qe_identity_issuer_chain: self.qe_identity_issuer_chain@,
            qe_identity: self.qe_identity@,
            qe_identity_signature: self.qe_identity_signature@,
            pck_certificate_chain: opt_view(self.pck_certificate_chain),
        }
    }
}

/// What DCAP reported: the TCB status and, for a TD quote, its report data and RTMR3.
pub struct DcapView {
    pub status: Seq<char>,
    pub td10: Option<(Seq<u8>, Seq<u8>)>,
}

pub open spec fn dcap_view(d: DcapReport) -> DcapView {
    DcapView {
        status: d.status@,
        td10: match d.td10 {
            Some(td) => Some((td.report_data@, td.rt_mr3@)),
            None => None,
        },
    }
}

/// What `dcap_qvl::verify::rustcrypto::verify` reports for a quote, its collateral and the time
/// (Unix seconds): the TCB status and the TD report body, or `None` when it refuses the quote.
pub uninterp spec fn dcap_verdict(quote: Seq<u8>, collateral: CollateralView, now: u64) -> Option<DcapView>;

/// The text (`{:#}`) of the verifier's error when it refuses the quote.
pub uninterp spec fn dcap_error_text(quote: Seq<u8>, collateral: CollateralView, now: u64) -> Seq<char>;

/// Converts the collateral into dcap-qvl's collateral, field for field.
#[verifier::external_body]
fn to_qvl(c: &IntelCollateral) -> QuoteCollateralV3 {
    QuoteCollateralV3 {
        pck_crl_issuer_chain: c.pck_crl_issuer_chain.clone(),
        root_ca_crl: c.root_ca_crl.clone(),
        pck_crl: c.pck_crl.clone(),
        tcb_info_issuer_chain: c.tcb_info_issuer_chain.clone(),
        tcb_info: c.tcb_info.clone(),
        tcb_info_signature: c.tcb_info_signature.clone(),
        qe_identity_issuer_chain: c.qe_identity_issuer_chain.clone(),
        qe_identity: c.qe_identity.clone(),
        qe_identity_signature: c.qe_identity_signature.clone(),
        pck_certificate_chain: c.pck_certificate_chain.clone(),
    }
}

/// Converts dcap-qvl's verified report: its status and, through `Report::as_td10`, the TD
/// report body's `report_data` and `rt_mr3`.
#[verifier::external_body]
fn from_verified(v: &VerifiedReport) -> DcapReport {
    let td10 = match v.report.as_td10() {
        Some(td) => Some(TdReport { report_data: td.report_data.to_vec(), rt_mr3: td.rt_mr3.to_vec() }),
        None => None,
    };
    DcapReport { status: v.status.clone(), td10 }
}

/// `dcap_qvl::verify::rustcrypto::verify`: offline verification of a quote against its
/// collateral at time `now`. Its verdict is a function of these three values.
#[verifier::external_body]
pub fn dcap_verify(quote: &[u8], collateral: &IntelCollateral, now: u64) -> (r: Result<DcapReport, String>)
    ensures
        r is Ok <==> dcap_verdict(quote@, collateral@, now) is Some,
        r matches Ok(d) ==> dcap_verdict(quote@, collateral@, now) == Some(dcap_view(d)),
        r matches Err(e) ==> e@ == dcap_error_text(quote@, collateral@, now),
{
    match dcap_qvl::verify::rustcrypto::verify(quote, &to_qvl(collateral), now) {
        Ok(v) => Ok(from_verified(&v)),
        Err(e) => Err(format!("{e:#}")),
    }
}

// ---- the collateral in the evidence bundle ----

pub open spec fn invalid_field(key: Seq<char>) -> Seq<char> {
    "Phala Intel collateral is invalid: missing or non-string field `"@ + key + "`"@
}

/// A required string member of the collateral object.
pub open spec fn collateral_text(c: JsonValue, key: Seq<char>) -> Result<Seq<char>, Seq<char>> {
    match c.field_text(key) {
        Some(t) => Ok(t),
        None => Err(invalid_field(key)),
    }
}

/// The bytes of a hex member (optionally `0x`-prefixed).
pub open spec fn collateral_hex(key: Seq<char>, text: Seq<char>) -> Result<Seq<u8>, Seq<char>> {
    match hex_decode(strip_0x(text)) {
        Some(b) => Ok(b),
        None => Err("Phala "@ + key + " must be hex: "@ + hex_error_text(strip_0x(text))),
    }
}

/// The optional PCK certificate chain: absent or `null`, or a string.
pub open spec fn collateral_chain(c: JsonValue) -> Result<Option<Seq<char>>, Seq<char>> {
    match c.field("pck_certificate_chain"@) {
        None => Ok(None),
        Some(JsonValue::Null) => Ok(None),
        Some(JsonValue::Str(s)) => Ok(Some(s@)),
        Some(_) => Err(
            "Phala Intel collateral is invalid: field `pck_certificate_chain` is not a string"@,
        ),
    }
}

/// The first failure of a sequence of outcomes, or all their values.
pub open spec fn all_ok(rs: Seq<Result<Seq<char>, Seq<char>>>) -> Result<Seq<Seq<char>>, Seq<char>>
    decreases rs.len(),
{
    if rs.len() == 0 {
        Ok(Seq::empty())
    } else {
        match rs[0] {
            Err(m) => Err(m),
            Ok(t) => match all_ok(rs.drop_first()) {
                Ok(ts) => Ok(seq![t] + ts),
                Err(m) => Err(m),
            },
        }
    }
}

/// The nine required string members, in order.
pub open spec fn collateral_texts(c: JsonValue) -> Result<Seq<Seq<char>>, Seq<char>> {
    all_ok(
        seq![
            collateral_text(c, "pck_crl_issuer_chain"@),
            collateral_text(c, "root_ca_crl"@),
            collateral_text(c, "pck_crl"@),
            collateral_text(c, "tcb_info_issuer_chain"@),
            collateral_text(c, "tcb_info"@),
            collateral_text(c, "tcb_info_signature"@),
            collateral_text(c, "qe_identity_issuer_chain"@),
            collateral_text(c, "qe_identity"@),
            collateral_text(c, "qe_identity_signature"@),
        ],
    )
}

/// The Intel collateral of an evidence bundle: its members read, then its CRLs and signatures
/// decoded from hex; the message of the first that fails.
pub open spec fn collateral_of(bundle: JsonValue) -> Result<CollateralView, Seq<char>> {
    match bundle.field("intel_collateral"@) {
        None => Err("Phala Intel collateral is missing"@),
        Some(c) => if c.members() is None {
            Err("Phala Intel collateral is invalid: not an object"@)
        } else {
            match collateral_texts(c) {
                Err(m) => Err(m),
                Ok(ts) => match collateral_chain(c) {
                    Err(m) => Err(m),
                    Ok(chain) => match collateral_hex("root_ca_crl"@, ts[1]) {
                        Err(m) => Err(m),
                        Ok(root_ca_crl) => match collateral_hex("pck_crl"@, ts[2]) {
                            Err(m) => Err(m),
                            Ok(pck_crl) => match collateral_hex("tcb_info_signature"@, ts[5]) {
                                Err(m) => Err(m),
                                Ok(tcb_sig) => match collateral_hex("qe_identity_signature"@, ts[8]) {
                                    Err(m) => Err(m),
                                    Ok(qe_sig) => Ok(
                                        CollateralView {
                                            pck_crl_issuer_chain: ts[0],
                                            root_ca_crl,
                                            pck_crl,
                                            tcb_info_issuer_chain: ts[3],
                                            tcb_info: ts[4],
                                            tcb_info_signature: tcb_sig,
                                            qe_identity_issuer_chain: ts[6],
                                            qe_identity: ts[7],
                                            qe_identity_signature: qe_sig,
                                            pck_certificate_chain: chain,
                                        },
                                    ),
                                },
                            },
                        },
                    },
                },
            }
        },
    }
}

fn text_member(c: &JsonValue, key: &str) -> (r: Result<String, CoreError>)
    ensures
        match collateral_text(*c, key@) {
            Ok(t) => r matches Ok(s) && s@ == t,
            Err(m) => r matches Err(CoreError::Attestation(x)) && x@ == m,
        },
{
    match c.get_str(key) {
        Some(s) => Ok(s.clone()),
        None => {
            let mut m = concat3(
                "Phala Intel collateral is invalid: missing or non-string field `",
                key,
                "`",
            );
            Err(CoreError::Attestation(m))
        },
    }
}

fn hex_member(key: &str, text: &String) -> (r: Result<Vec<u8>, CoreError>)
    ensures
        match collateral_hex(key@, text@) {
            Ok(b) => r matches Ok(v) && v@ == b,
            Err(m) => r matches Err(CoreError::Attestation(x)) && x@ == m,
        },
{
    match decode_hex(strip_0x_str(text.as_str())) {
        Ok(b) => Ok(b),
        Err(e) => {
            let mut m = concat3("Phala ", key, " must be hex: ");
            m.append(e.as_str());
            Err(CoreError::Attestation(m))
        },
    }
}

proof fn lemma_all_ok_prefix(rs: Seq<Result<Seq<char>, Seq<char>>>, k: int, m: Seq<char>)
    requires
        0 <= k < rs.len(),
        forall|i: int| 0 <= i < k ==> (#[trigger] rs[i]) is Ok,
        rs[k] == Err::<Seq<char>, Seq<char>>(m),
    ensures
        all_ok(rs) == Err::<Seq<Seq<char>>, Seq<char>>(m),
    decreases k,
{
    if k > 0 {
        assert forall|i: int| 0 <= i < k - 1 implies (#[trigger] rs.drop_first()[i]) is Ok by {
            assert(rs.drop_first()[i] == rs[i + 1]);
        }
        lemma_all_ok_prefix(rs.drop_first(), k - 1, m);
    }
}

proof fn lemma_all_ok_values(rs: Seq<Result<Seq<char>, Seq<char>>>)
    requires
        forall|i: int| 0 <= i < rs.len() ==> (#[trigger] rs[i]) is Ok,
    ensures
        all_ok(rs) matches Ok(ts) && ts.len() == rs.len() && forall|i: int|
            0 <= i < rs.len() ==> rs[i] == Ok::<Seq<char>, Seq<char>>(#[trigger] ts[i]),
    decreases rs.len(),
{
    if rs.len() > 0 {
        assert forall|i: int| 0 <= i < rs.len() - 1 implies (#[trigger] rs.drop_first()[i]) is Ok by {
            assert(rs.drop_first()[i] == rs[i + 1]);
        }
        lemma_all_ok_values(rs.drop_first());
        let ts = all_ok(rs.drop_first())->Ok_0;
        let t = rs[0]->Ok_0;
        assert forall|i: int| 0 <= i < rs.len() implies rs[i] == Ok::<Seq<char>, Seq<char>>(
            #[trigger] (seq![t] + ts)[i],
        ) by {
            if i > 0 {
                assert(rs.drop_first()[i - 1] == rs[i]);
            }
        }
    }
}

/// Reads the Intel collateral of an evidence bundle (see `collateral_of`).
pub fn intel_collateral(bundle: &JsonValue) -> (r: Result<IntelCollateral, CoreError>)
    ensures
        match collateral_of(*bundle) {
            Ok(cv) => r matches Ok(c) && c@ == cv,
            Err(m) => r matches Err(CoreError::Attestation(x)) && x@ == m,
        },
{
    proof {
        reveal_strlit("intel_collateral");
        reveal_strlit("pck_certificate_chain");
    }
    let c = match bundle.get("intel_collateral") {
        Some(c) => c,
        None => {
            return Err(CoreError::Attestation(String::from_str("Phala Intel collateral is missing")));
        },
    };
    if c.as_object().is_none() {
        return Err(
            CoreError::Attestation(
                String::from_str("Phala Intel collateral is invalid: not an object"),
            ),
        );
    }
    let ghost rs = seq![
        collateral_text(*c, "pck_crl_issuer_chain"@),
        collateral_text(*c, "root_ca_crl"@),
        collateral_text(*c, "pck_crl"@),
        collateral_text(*c, "tcb_info_issuer_chain"@),
        collateral_text(*c, "tcb_info"@),
        collateral_text(*c, "tcb_info_signature"@),
        collateral_text(*c, "qe_identity_issuer_chain"@),
        collateral_text(*c, "qe_identity"@),
        collateral_text(*c, "qe_identity_signature"@),
    ];
    assert(collateral_texts(*c) == all_ok(rs));
    let t0 = match text_member(c, "pck_crl_issuer_chain") {
        Ok(t) => t,
        Err(e) => {
            proof { lemma_all_ok_prefix(rs, 0, rs[0]->Err_0); }
            return Err(e);
        },
    };
    let t1 = match text_member(c, "root_ca_crl") {
        Ok(t) => t,
        Err(e) => {
            proof { lemma_all_ok_prefix(rs, 1, rs[1]->Err_0); }
            return Err(e);
        },
    };
    let t2 = match text_member(c, "pck_crl") {
        Ok(t) => t,
        Err(e) => {
            proof { lemma_all_ok_prefix(rs, 2, rs[2]->Err_0); }
            return Err(e);
        },
    };
    let t3 = match text_member(c, "tcb_info_issuer_chain") {
        Ok(t) => t,
        Err(e) => {
            proof { lemma_all_ok_prefix(rs, 3, rs[3]->Err_0); }
            return Err(e);
        },
    };
    let t4 = match text_member(c, "tcb_info") {
        Ok(t) => t,
        Err(e) => {
            proof { lemma_all_ok_prefix(rs, 4, rs[4]->Err_0); }
            return Err(e);
        },
    };
    let t5 = match text_member(c, "tcb_info_signature") {
        Ok(t) => t,
        Err(e) => {
            proof { lemma_all_ok_prefix(rs, 5, rs[5]->Err_0); }
            return Err(e);
        },
    };
    let t6 = match text_member(c, "qe_identity_issuer_chain") {
        Ok(t) => t,
        Err(e) => {
            proof { lemma_all_ok_prefix(rs, 6, rs[6]->Err_0); }
            return Err(e);
        },
    };
    let t7 = match text_member(c, "qe_identity") {
        Ok(t) => t,
        Err(e) => {
            proof { lemma_all_ok_prefix(rs, 7, rs[7]->Err_0); }
            return Err(e);
        },
    };
    let t8 = match text_member(c, "qe_identity_signature") {
        Ok(t) => t,
        Err(e) => {
            proof { lemma_all_ok_prefix(rs, 8, rs[8]->Err_0); }
            return Err(e);
        },
    };
    proof {
        lemma_all_ok_values(rs);
    }
    let chain = match c.get("pck_certificate_chain") {
        None => None,
        Some(JsonValue::Null) => None,
        Some(JsonValue::Str(s)) => Some(s.clone()),
        Some(_) => {
            return Err(
                CoreError::Attestation(
                    String::from_str(
                        "Phala Intel collateral is invalid: field `pck_certificate_chain` is not a string",
                    ),
                ),
            );
        },
    };
    let root_ca_crl = hex_member("root_ca_crl", &t1)?;
    let pck_crl = hex_member("pck_crl", &t2)?;
    let tcb_info_signature = hex_member("tcb_info_signature", &t5)?;
    let qe_identity_signature = hex_member("qe_identity_signature", &t8)?;
    Ok(
        IntelCollateral {
            pck_crl_issuer_chain: t0,
            root_ca_crl,
            pck_crl,
            tcb_info_issuer_chain: t3,
            tcb_info: t4,
            tcb_info_signature,
            qe_identity_issuer_chain: t6,
            qe_identity: t7,
            qe_identity_signature,
            pck_certificate_chain: chain,
        },
    )
}

/// DCAP's verdict on the gateway quote as the checks after it read it: the report, or the
/// verifier's error under `Phala Intel DCAP verification failed: `.
pub open spec fn dcap_outcome(quote: Seq<u8>, collateral: CollateralView, now: u64) -> Result<DcapView, Seq<char>> {
    match dcap_verdict(quote, collateral, now) {
        Some(d) => Ok(d),
        None => Err("Phala Intel DCAP verification failed: "@ + dcap_error_text(quote, collateral, now)),
    }
}

/// Verifies the gateway quote against its collateral at `now` (see `dcap_outcome`).
pub fn verify_gateway_quote(quote: &[u8], collateral: &IntelCollateral, now: u64) -> (r: Result<DcapReport, String>)
    ensures
        match dcap_outcome(quote@, collateral@, now) {
            Ok(d) => r matches Ok(x) && dcap_view(x) == d,
            Err(m) => r matches Err(e) && e@ == m,
        },
{
    match dcap_verify(quote, collateral, now) {
        Ok(d) => Ok(d),
        Err(e) => Err(concat2("Phala Intel DCAP verification failed: ", e.as_str())),
    }
}

} // verus!
