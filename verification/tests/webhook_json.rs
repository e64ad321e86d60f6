use pylon_emulator::lifecycle::complete_resolve;
use pylon_emulator::store::SessionStore;
use pylon_emulator::webhook::{
    build_payload, lay_out_json, payload_json, quote_payload, Evidence, WebhookPayload,
};
use serde_json::Value;

fn text_of(v: &Value, key: &str) -> String {
    v.get(key).and_then(Value::as_str).map(String::from).unwrap_or_default()
}

#[test]
fn payload_json_is_exact() {
    let text = payload_json(&build_payload("ver_local_ABCD1234", 18, true));
    assert_eq!(
        text,
        "{\"verificationId\":\"ver_local_ABCD1234\",\"type\":\"age\",\"result\":\"verified\",\
\"attributes\":{\"ageOver18\":true},\"evidence\":{\"issuer\":\"LOCAL_TEST\",\
\"credentialType\":\"SD-JWT VC\",\"proofHash\":\"sha256:test123...\",\
\"issuedAt\":\"2025-01-15T14:30:00Z\"},\"audit\":{\"traceId\":\"trace_ver_local_ABCD1234\"}}"
    );
}

#[test]
fn payload_json_reports_a_refusal() {
    let text = payload_json(&build_payload("ver_local_00000000", 21, false));
    assert_eq!(
        text,
        "{\"verificationId\":\"ver_local_00000000\",\"type\":\"age\",\"result\":\"not_verified\",\
\"attributes\":{\"ageOver21\":false},\"evidence\":{\"issuer\":\"LOCAL_TEST\",\
\"credentialType\":\"SD-JWT VC\",\"proofHash\":\"sha256:test123...\",\
\"issuedAt\":\"2025-01-15T14:30:00Z\"},\"audit\":{\"traceId\":\"trace_ver_local_00000000\"}}"
    );
}

#[test]
fn payload_json_parses_to_the_fixed_schema() {
    let text = payload_json(&build_payload("ver_local_ABCD1234", 18, true));
    let parsed: Value = serde_json::from_str(&text).unwrap();

    let mut attributes = serde_json::Map::new();
    attributes.insert(String::from("ageOver18"), Value::Bool(true));
    let mut evidence = serde_json::Map::new();
    evidence.insert(String::from("issuer"), Value::String(String::from("LOCAL_TEST")));
    evidence.insert(String::from("credentialType"), Value::String(String::from("SD-JWT VC")));
    evidence.insert(String::from("proofHash"), Value::String(String::from("sha256:test123...")));
    evidence.insert(String::from("issuedAt"), Value::String(String::from("2025-01-15T14:30:00Z")));
    let mut audit = serde_json::Map::new();
    audit.insert(String::from("traceId"), Value::String(String::from("trace_ver_local_ABCD1234")));
    let mut expected = serde_json::Map::new();
    expected
        .insert(String::from("verificationId"), Value::String(String::from("ver_local_ABCD1234")));
    expected.insert(String::from("type"), Value::String(String::from("age")));
    expected.insert(String::from("result"), Value::String(String::from("verified")));
    expected.insert(String::from("attributes"), Value::Object(attributes));
    expected.insert(String::from("evidence"), Value::Object(evidence));
    expected.insert(String::from("audit"), Value::Object(audit));

    assert_eq!(parsed, Value::Object(expected));
}

#[test]
fn payload_json_escapes_its_texts() {
    let id = "a\"b\\c\nd";
    let text = payload_json(&build_payload(id, 18, true));
    assert!(text.starts_with("{\"verificationId\":\"a\\\"b\\\\c\\nd\","));
    let parsed: Value = serde_json::from_str(&text).unwrap();
    assert_eq!(text_of(&parsed, "verificationId"), id);
    let audit = parsed.get("audit").unwrap();
    assert_eq!(text_of(audit, "traceId"), format!("trace_{}", id));
}

#[test]
fn quoting_wraps_each_text() {
    let literals = quote_payload(&build_payload("x", 18, false));
    assert_eq!(literals.verification_id, "\"x\"");
    assert_eq!(literals.kind, "\"age\"");
    assert_eq!(literals.result, "\"not_verified\"");
    assert_eq!(literals.attribute, "\"ageOver18\"");
    assert!(!literals.attribute_value);
    assert_eq!(literals.evidence.issuer, "\"LOCAL_TEST\"");
    assert_eq!(literals.evidence.credential_type, "\"SD-JWT VC\"");
    assert_eq!(literals.evidence.proof_hash, "\"sha256:test123...\"");
    assert_eq!(literals.evidence.issued_at, "\"2025-01-15T14:30:00Z\"");
    assert_eq!(literals.trace_id, "\"trace_x\"");
}

#[test]
fn layout_places_the_literals() {
    let literals = WebhookPayload {
        verification_id: String::from("1"),
        kind: String::from("2"),
        result: String::from("3"),
        attribute: String::from("\"k\""),
        attribute_value: false,
        evidence: Evidence {
            issuer: String::from("4"),
            credential_type: String::from("5"),
            proof_hash: String::from("6"),
            issued_at: String::from("7"),
        },
        trace_id: String::from("8"),
    };
    assert_eq!(
        lay_out_json(&literals),
        "{\"verificationId\":1,\"type\":2,\"result\":3,\"attributes\":{\"k\":false},\
\"evidence\":{\"issuer\":4,\"credentialType\":5,\"proofHash\":6,\"issuedAt\":7},\
\"audit\":{\"traceId\":8}}"
    );
}

#[test]
fn delivery_of_a_resolution_renders() {
    let mut store = SessionStore::new();
    let id = store.create_with_token("ABCD1234", 18, "https://rp.example/cb");
    let delivery = complete_resolve(&mut store, &id, Ok(true)).unwrap();
    let parsed: Value = serde_json::from_str(&payload_json(&delivery.payload)).unwrap();
    assert_eq!(text_of(&parsed, "verificationId"), "ver_local_ABCD1234");
    assert_eq!(text_of(&parsed, "type"), "age");
    assert_eq!(text_of(&parsed, "result"), "verified");
    assert_eq!(
        parsed.get("attributes").and_then(|a| a.get("ageOver18")).and_then(Value::as_bool),
        Some(true)
    );
}
