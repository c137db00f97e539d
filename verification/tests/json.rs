use overlay_forge::json::{json_member, json_text, parse_json, JsonValue};
use overlay_forge::openai::message_texts;

#[test]
fn parsed_documents_keep_members_texts_numbers_and_arrays() {
    let value = parse_json(r#"{"name":"Ada","age":36,"tags":["a","b"],"ok":true,"none":null}"#)
        .expect("valid JSON parses");
    assert_eq!(json_text(json_member(&value, "name")), Some("Ada".to_string()));
    assert!(matches!(json_member(&value, "age"), Some(JsonValue::Number(n)) if n == "36"));
    assert!(matches!(json_member(&value, "tags"), Some(JsonValue::Array(items)) if items.len() == 2));
    assert!(matches!(json_member(&value, "ok"), Some(JsonValue::Bool(true))));
    assert!(matches!(json_member(&value, "none"), Some(JsonValue::Null)));
    assert!(json_member(&value, "missing").is_none());
    assert_eq!(json_text(json_member(&value, "age")), None);
    assert!(parse_json("{not json").is_err());
}

#[test]
fn message_texts_read_only_message_items_in_order() {
    let value = parse_json(
        r#"{"output":[
            {"type":"reasoning","content":[{"text":"hidden"}]},
            {"type":"message","content":[{"text":"First"},{"image":"x"},{"text":"Second"}]},
            {"type":"message","content":"not a list"},
            {"type":"message","content":[{"text":"Third"}]}
        ]}"#,
    )
    .expect("valid JSON parses");
    assert_eq!(message_texts(&value), vec!["First", "Second", "Third"]);
    let not_a_list = parse_json(r#"{"output":{"type":"message"}}"#).unwrap();
    assert!(message_texts(&not_a_list).is_empty());
}
