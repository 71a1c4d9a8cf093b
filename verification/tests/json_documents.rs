use llm_load_balancer::json::{parse_json_text, JsonMember, JsonValue};
use llm_load_balancer::proxy::{requested_model, wants_stream};

fn member(key: &str, value: JsonValue) -> JsonMember {
    JsonMember { key: key.to_string(), value }
}

fn text(s: &str) -> JsonValue {
    JsonValue::Str(s.to_string())
}

#[test]
fn get_reads_members_of_objects_only() {
    let doc = JsonValue::Object(vec![member("a", JsonValue::Int(1)), member("b", text("x"))]);
    assert_eq!(doc.get("b"), Some(&text("x")));
    assert_eq!(doc.get("c"), None);
    assert_eq!(JsonValue::Array(vec![]).get("a"), None);
    assert_eq!(text("a").get("a"), None);
}

#[test]
fn set_field_replaces_in_place_or_appends() {
    let mut doc = JsonValue::Object(vec![member("a", JsonValue::Int(1)), member("b", text("x"))]);
    doc.set_field("a".to_string(), JsonValue::Bool(false));
    doc.set_field("c".to_string(), JsonValue::Null);
    assert_eq!(
        doc,
        JsonValue::Object(vec![
            member("a", JsonValue::Bool(false)),
            member("b", text("x")),
            member("c", JsonValue::Null),
        ])
    );
    // read after write
    assert_eq!(doc.get("a"), Some(&JsonValue::Bool(false)));
    assert_eq!(doc.get("b"), Some(&text("x")));
}

#[test]
fn set_field_on_null_makes_an_object() {
    let mut doc = JsonValue::Null;
    doc.set_field("k".to_string(), text("v"));
    assert_eq!(doc, JsonValue::Object(vec![member("k", text("v"))]));
}

#[test]
fn duplicate_copies_everything() {
    let doc = JsonValue::Object(vec![
        member("n", JsonValue::Other(serde_json::Value::from(7))),
        member("l", JsonValue::Array(vec![JsonValue::UInt(3), text("t")])),
    ]);
    assert_eq!(doc.duplicate(), doc);
}

#[test]
fn model_and_stream_are_read_from_the_body() {
    let body = JsonValue::Object(vec![
        member("model", text("m1")),
        member("stream", JsonValue::Bool(true)),
    ]);
    assert_eq!(requested_model(&body), Some("m1".to_string()));
    assert!(wants_stream(&body));
    let body = JsonValue::Object(vec![
        member("model", JsonValue::Int(3)),
        member("stream", text("yes")),
    ]);
    assert_eq!(requested_model(&body), None);
    assert!(!wants_stream(&body));
    assert_eq!(requested_model(&JsonValue::Null), None);
}

#[test]
fn json_text_parses_only_documents() {
    assert!(parse_json_text("{\"a\": 1}").is_some());
    assert!(parse_json_text("not json").is_none());
}
