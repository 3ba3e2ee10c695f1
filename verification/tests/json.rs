use updater::json::string_field;

#[test]
fn string_field_reads_a_string_member() {
    let doc: serde_json::Value = serde_json::from_str("{\"a\":\"x\",\"b\":2,\"c\":{\"a\":\"y\"}}").unwrap();
    assert_eq!(string_field(&doc, "a"), Some("x".to_string()));
    assert_eq!(string_field(&doc, "b"), None);
    assert_eq!(string_field(&doc, "c"), None);
    assert_eq!(string_field(&doc, "d"), None);
    assert_eq!(string_field(doc.get("c").unwrap(), "a"), Some("y".to_string()));
}

#[test]
fn string_field_of_what_is_no_object_is_none() {
    let text: serde_json::Value = serde_json::from_str("\"a\"").unwrap();
    assert_eq!(string_field(&text, "a"), None);
    let list: serde_json::Value = serde_json::from_str("[\"a\"]").unwrap();
    assert_eq!(string_field(&list, "0"), None);
}
