use rso_sample::json::parse_json_object;
use rso_sample::json::JsonValue;

#[test]
fn empty_object_decodes() {
    let ms = parse_json_object("  { }  ").unwrap();
    assert_eq!(ms.len(), 0);
}

#[test]
fn flat_object_decodes_every_kind() {
    let body = r#"{"a": "x", "b": 42, "c": [1, 2, 3], "d": true, "e": false, "f": null}"#;
    let ms = parse_json_object(body).unwrap();
    assert_eq!(ms.len(), 6);
    assert_eq!(ms[0], ("a".to_string(), JsonValue::Text("x".to_string())));
    assert_eq!(ms[1], ("b".to_string(), JsonValue::Num(42)));
    assert_eq!(ms[2], ("c".to_string(), JsonValue::Nums(vec![1, 2, 3])));
    assert_eq!(ms[3], ("d".to_string(), JsonValue::Bool(true)));
    assert_eq!(ms[4], ("e".to_string(), JsonValue::Bool(false)));
    assert_eq!(ms[5], ("f".to_string(), JsonValue::Null));
}

#[test]
fn string_escapes_decode() {
    let body = r#"{"s": "a\"b\\c\/d\n\t\r\b\f"}"#;
    let ms = parse_json_object(body).unwrap();
    assert_eq!(
        ms[0].1,
        JsonValue::Text("a\"b\\c/d\n\t\r\u{8}\u{c}".to_string())
    );
}

#[test]
fn unicode_escapes_decode() {
    let body = "{\"s\": \"\\u0041\\u00e9\\u20ac\"}";
    let ms = parse_json_object(body).unwrap();
    assert_eq!(ms[0].1, JsonValue::Text("A\u{e9}\u{20ac}".to_string()));
}

#[test]
fn unescaped_multibyte_characters_decode() {
    let body = "{\"s\": \"caf\u{e9}\"}";
    let ms = parse_json_object(body).unwrap();
    assert_eq!(ms[0].1, JsonValue::Text("caf\u{e9}".to_string()));
}

#[test]
fn surrogate_pair_decodes() {
    let body = "{\"s\": \"\\ud834\\udd1e\"}";
    let ms = parse_json_object(body).unwrap();
    assert_eq!(ms[0].1, JsonValue::Text("\u{1d11e}".to_string()));
}

#[test]
fn lone_surrogate_is_rejected() {
    assert!(parse_json_object(r#"{"s": "\ud834"}"#).is_none());
    assert!(parse_json_object(r#"{"s": "\udd1e"}"#).is_none());
}

#[test]
fn control_character_is_rejected() {
    assert!(parse_json_object("{\"s\": \"a\u{1}b\"}").is_none());
}

#[test]
fn leading_zero_is_rejected() {
    assert!(parse_json_object(r#"{"n": 01}"#).is_none());
    let ms = parse_json_object(r#"{"n": 0}"#).unwrap();
    assert_eq!(ms[0].1, JsonValue::Num(0));
}

#[test]
fn number_overflow_is_rejected() {
    let ms = parse_json_object(r#"{"n": 18446744073709551615}"#).unwrap();
    assert_eq!(ms[0].1, JsonValue::Num(u64::MAX));
    assert!(parse_json_object(r#"{"n": 18446744073709551616}"#).is_none());
}

#[test]
fn empty_array_decodes() {
    let ms = parse_json_object(r#"{"a": []}"#).unwrap();
    assert_eq!(ms[0].1, JsonValue::Nums(vec![]));
}

#[test]
fn malformed_bodies_are_rejected() {
    assert!(parse_json_object("").is_none());
    assert!(parse_json_object("{").is_none());
    assert!(parse_json_object(r#"{"a": 1"#).is_none());
    assert!(parse_json_object(r#"{"a": 1} trailing"#).is_none());
    assert!(parse_json_object(r#"{"a": -1}"#).is_none());
    assert!(parse_json_object(r#"{"a": 1.5}"#).is_none());
    assert!(parse_json_object(r#"{"a": {"b": 1}}"#).is_none());
    assert!(parse_json_object(r#"["a"]"#).is_none());
    assert!(parse_json_object(r#"{"a" 1}"#).is_none());
    assert!(parse_json_object(r#"{"a": 1,}"#).is_none());
}
