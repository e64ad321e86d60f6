//! The notification that reports a settled verification to the relying
//! party: a payload of fixed shape, its JSON text, and the address it goes
//! to.

use crate::session::SessionView;
use crate::text::{append_decimal, decimal};
use vstd::prelude::*;
use vstd::string::*;

verus! {

/// Where the reported credential came from.
#[derive(Debug)]
pub struct Evidence {
    pub issuer: String,
    pub credential_type: String,
    pub proof_hash: String,
    pub issued_at: String,
}

/// Mathematical value of the evidence block.
pub struct EvidenceView {
    pub issuer: Seq<char>,
    pub credential_type: Seq<char>,
    pub proof_hash: Seq<char>,
    pub issued_at: Seq<char>,
}

impl View for Evidence {
    type V = EvidenceView;

    open spec fn view(&self) -> EvidenceView {
        EvidenceView {
            issuer: self.issuer@,
            credential_type: self.credential_type@,
            proof_hash: self.proof_hash@,
            issued_at: self.issued_at@,
        }
    }
}

/// The body of the notification. It has one attribute, named after the age
/// threshold, and one audit field, the trace identifier.
#[derive(Debug)]
pub struct WebhookPayload {
    pub verification_id: String,
    pub kind: String,
    pub result: String,
    pub attribute: String,
    pub attribute_value: bool,
    pub evidence: Evidence,
    pub trace_id: String,
}

/// Mathematical value of a payload.
pub struct PayloadView {
    pub verification_id: Seq<char>,
    pub kind: Seq<char>,
    pub result: Seq<char>,
    pub attribute: Seq<char>,
    pub attribute_value: bool,
    pub evidence: EvidenceView,
    pub trace_id: Seq<char>,
}

impl View for WebhookPayload {
    type V = PayloadView;

    open spec fn view(&self) -> PayloadView {
        PayloadView {
            verification_id: self.verification_id@,
            kind: self.kind@,
            result: self.result@,
            attribute: self.attribute@,
            attribute_value: self.attribute_value,
            evidence: self.evidence@,
            trace_id: self.trace_id@,
        }
    }
}

/// One notification to send: the payload and the address to post it to.
#[derive(Debug)]
pub struct WebhookDelivery {
    pub callback_url: String,
    pub payload: WebhookPayload,
}

/// Mathematical value of a delivery.
pub struct DeliveryView {
    pub callback_url: Seq<char>,
    pub payload: PayloadView,
}

impl View for WebhookDelivery {
    type V = DeliveryView;

    open spec fn view(&self) -> DeliveryView {
        DeliveryView { callback_url: self.callback_url@, payload: self.payload@ }
    }
}

/// The word that reports the answer of the credential check.
pub open spec fn result_word(verified: bool) -> Seq<char> {
    if verified {
        "verified"@
    } else {
        "not_verified"@
    }
}

/// The name of the attribute for a threshold: `ageOver` and the threshold
/// in decimal.
pub open spec fn attribute_name(min_age: u32) -> Seq<char> {
    "ageOver"@ + decimal(min_age as nat)
}

/// The trace identifier of a session.
pub open spec fn trace_id_of(id: Seq<char>) -> Seq<char> {
    "trace_"@ + id
}

/// The evidence block, the same in every payload.
pub open spec fn fixed_evidence() -> EvidenceView {
    EvidenceView {
        issuer: "LOCAL_TEST"@,
        credential_type: "SD-JWT VC"@,
        proof_hash: "sha256:test123..."@,
        issued_at: "2025-01-15T14:30:00Z"@,
    }
}

/// The payload that reports `verified` for the session `id` with threshold
/// `min_age`.
pub open spec fn payload_for(id: Seq<char>, min_age: u32, verified: bool) -> PayloadView {
    PayloadView {
        verification_id: id,
        kind: "age"@,
        result: result_word(verified),
        attribute: attribute_name(min_age),
        attribute_value: verified,
        evidence: fixed_evidence(),
        trace_id: trace_id_of(id),
    }
}

/// The delivery that reports `verified` for `session`.
pub open spec fn delivery_for(session: SessionView, verified: bool) -> DeliveryView {
    DeliveryView {
        callback_url: session.callback_url,
        payload: payload_for(session.id, session.min_age, verified),
    }
}

/// Builds the payload for one settled verification.
pub fn build_payload(verification_id: &str, min_age: u32, verified: bool) -> (payload:
    WebhookPayload)
    ensures
        payload@ == payload_for(verification_id@, min_age, verified),
{
    let result = if verified {
        String::from_str("verified")
    } else {
        String::from_str("not_verified")
    };
    let mut attribute = String::from_str("ageOver");
    append_decimal(&mut attribute, min_age);
    let mut trace_id = String::from_str("trace_");
    trace_id.append(verification_id);
    WebhookPayload {
        verification_id: String::from_str(verification_id),
        kind: String::from_str("age"),
        result,
        attribute,
        attribute_value: verified,
        evidence: Evidence {
            issuer: String::from_str("LOCAL_TEST"),
            credential_type: String::from_str("SD-JWT VC"),
            proof_hash: String::from_str("sha256:test123..."),
            issued_at: String::from_str("2025-01-15T14:30:00Z"),
        },
        trace_id,
    }
}

/// Builds the delivery for one settled verification.
pub fn build_delivery(callback_url: &str, verification_id: &str, min_age: u32, verified: bool) -> (delivery:
    WebhookDelivery)
    ensures
        delivery@ == (DeliveryView {
            callback_url: callback_url@,
            payload: payload_for(verification_id@, min_age, verified),
        }),
{
    WebhookDelivery {
        callback_url: String::from_str(callback_url),
        payload: build_payload(verification_id, min_age, verified),
    }
}

/// The two result words differ, so a payload never reports one answer in
/// the words of the other.
pub proof fn lemma_result_words_differ()
    ensures
        result_word(true) != result_word(false),
        forall|a: bool, b: bool| result_word(a) == result_word(b) ==> a == b,
{
    reveal_strlit("verified");
    reveal_strlit("not_verified");
    assert(result_word(true).len() == 8);
    assert(result_word(false).len() == 12);
}

/// The JSON string literal of a text, quotes and escapes included, as
/// `serde_json` writes it in its compact form.
pub uninterp spec fn json_string(s: Seq<char>) -> Seq<char>;

/// Renders a text as a JSON string literal: wraps it in
/// `serde_json::Value::String` and formats that value with its `Display`
/// impl, which writes the compact form. The result depends on the text
/// alone; what it is, character by character, is left to `serde_json`.
#[verifier::external_body]
fn json_quote(s: &str) -> (literal: String)
    ensures
        literal@ == json_string(s@),
{
    serde_json::Value::String(s.to_owned()).to_string()
}

/// The JSON literal of a truth value.
pub open spec fn json_bool(b: bool) -> Seq<char> {
    if b {
        "true"@
    } else {
        "false"@
    }
}

/// The payload with every text replaced by its JSON string literal.
pub open spec fn quoted(p: PayloadView) -> PayloadView {
    PayloadView {
        verification_id: json_string(p.verification_id),
        kind: json_string(p.kind),
        result: json_string(p.result),
        attribute: json_string(p.attribute),
        attribute_value: p.attribute_value,
        evidence: EvidenceView {
            issuer: json_string(p.evidence.issuer),
            credential_type: json_string(p.evidence.credential_type),
            proof_hash: json_string(p.evidence.proof_hash),
            issued_at: json_string(p.evidence.issued_at),
        },
        trace_id: json_string(p.trace_id),
    }
}

/// The JSON object laid out around texts that are JSON string literals
/// already: the members in their fixed order, the attribute as the one
/// member of `attributes`, named by its own literal.
pub open spec fn json_layout(q: PayloadView) -> Seq<char> {
    "{\"verificationId\":"@ + q.verification_id + ",\"type\":"@ + q.kind + ",\"result\":"@
        + q.result + ",\"attributes\":{"@ + q.attribute + ":"@ + json_bool(q.attribute_value)
        + "},\"evidence\":{\"issuer\":"@ + q.evidence.issuer + ",\"credentialType\":"@
        + q.evidence.credential_type + ",\"proofHash\":"@ + q.evidence.proof_hash
        + ",\"issuedAt\":"@ + q.evidence.issued_at + "},\"audit\":{\"traceId\":"@ + q.trace_id
        + "}}"@
}

/// Replaces every text of a payload by its JSON string literal.
pub fn quote_payload(payload: &WebhookPayload) -> (literals: WebhookPayload)
    ensures
        literals@ == quoted(payload@),
{
    WebhookPayload {
        verification_id: json_quote(payload.verification_id.as_str()),
        kind: json_quote(payload.kind.as_str()),
        result: json_quote(payload.result.as_str()),
        attribute: json_quote(payload.attribute.as_str()),
        attribute_value: payload.attribute_value,
        evidence: Evidence {
            issuer: json_quote(payload.evidence.issuer.as_str()),
            credential_type: json_quote(payload.evidence.credential_type.as_str()),
            proof_hash: json_quote(payload.evidence.proof_hash.as_str()),
            issued_at: json_quote(payload.evidence.issued_at.as_str()),
        },
        trace_id: json_quote(payload.trace_id.as_str()),
    }
}

/// Lays the JSON object out around texts that are JSON string literals
/// already.
pub fn lay_out_json(literals: &WebhookPayload) -> (text: String)
    ensures
        text@ == json_layout(literals@),
{
    let mut text = String::from_str("{\"verificationId\":");
    text.append(literals.verification_id.as_str());
    text.append(",\"type\":");
    text.append(literals.kind.as_str());
    text.append(",\"result\":");
    text.append(literals.result.as_str());
    text.append(",\"attributes\":{");
    text.append(literals.attribute.as_str());
    text.append(":");
    if literals.attribute_value {
        text.append("true");
    } else {
        text.append("false");
    }
    text.append("},\"evidence\":{\"issuer\":");
    text.append(literals.evidence.issuer.as_str());
    text.append(",\"credentialType\":");
    text.append(literals.evidence.credential_type.as_str());
    text.append(",\"proofHash\":");
    text.append(literals.evidence.proof_hash.as_str());
    text.append(",\"issuedAt\":");
    text.append(literals.evidence.issued_at.as_str());
    text.append("},\"audit\":{\"traceId\":");
    text.append(literals.trace_id.as_str());
    text.append("}}");
    text
}

/// The JSON text of a payload, as it is posted to the relying party.
pub fn payload_json(payload: &WebhookPayload) -> (text: String)
    ensures
        text@ == json_layout(quoted(payload@)),
{
    let literals = quote_payload(payload);
    lay_out_json(&literals)
}

} // verus!
