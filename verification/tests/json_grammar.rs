use testaustime_auth::json::{get_object, get_string, parse_document, JsonValue};

fn key(s: &str) -> String {
    String::from(s)
}

#[test]
fn document_accepts_empty_object() {
    let ms = parse_document("{}").unwrap();
    assert!(ms.is_empty());
}

#[test]
fn document_accepts_surrounding_whitespace() {
    let ms = parse_document(" \t\r\n {\"a\":\"b\"} \n ").unwrap();
    assert_eq!(get_string(&ms, &key("a")).unwrap(), "b");
}

#[test]
fn document_accepts_nested_objects() {
    let ms = parse_document("{\"a\": {\"b\": {\"c\": \"d\"}}, \"e\": \"f\"}").unwrap();
    let a = get_object(&ms, &key("a")).unwrap();
    let b = get_object(a, &key("b")).unwrap();
    assert_eq!(get_string(b, &key("c")).unwrap(), "d");
    assert_eq!(get_string(&ms, &key("e")).unwrap(), "f");
}

#[test]
fn lookup_takes_first_duplicate() {
    let ms = parse_document("{\"a\":\"first\", \"a\":\"second\"}").unwrap();
    assert_eq!(get_string(&ms, &key("a")).unwrap(), "first");
}

#[test]
fn lookup_misses_absent_key() {
    let ms = parse_document("{\"a\":\"b\"}").unwrap();
    assert!(get_string(&ms, &key("z")).is_none());
    assert!(get_object(&ms, &key("a")).is_none());
}

#[test]
fn strings_decode_every_escape() {
    let ms = parse_document("{\"a\":\"q\\\" b\\\\ s\\/ n\\n t\\t r\\r\"}").unwrap();
    assert_eq!(get_string(&ms, &key("a")).unwrap(), "q\" b\\ s/ n\n t\t r\r");
}

#[test]
fn strings_keep_non_ascii_text() {
    let ms = parse_document("{\"name\":\"ääkkönen\"}").unwrap();
    assert_eq!(get_string(&ms, &key("name")).unwrap(), "ääkkönen");
}

#[test]
fn document_rejects_malformed_texts() {
    assert!(parse_document("").is_none());
    assert!(parse_document("   ").is_none());
    assert!(parse_document("\"just a string\"").is_none());
    assert!(parse_document("{").is_none());
    assert!(parse_document("{\"a\"}").is_none());
    assert!(parse_document("{\"a\":}").is_none());
    assert!(parse_document("{\"a\" \"b\"}").is_none());
    assert!(parse_document("{\"a\":\"b\"").is_none());
    assert!(parse_document("{\"a\":\"b\",}").is_none());
    assert!(parse_document("{\"a\":\"b\" \"c\":\"d\"}").is_none());
    assert!(parse_document("{\"a\":\"unterminated}").is_none());
    assert!(parse_document("{\"a\":\"bad\\u0041\"}").is_none());
    assert!(parse_document("{\"a\": 1}").is_none());
    assert!(parse_document("{\"a\": true}").is_none());
    assert!(parse_document("{\"a\": null}").is_none());
    assert!(parse_document("{\"a\": [\"b\"]}").is_none());
    assert!(parse_document("{1: \"b\"}").is_none());
    assert!(parse_document("{\"a\":\"b\"}{}").is_none());
}

#[test]
fn parsed_values_keep_their_shape() {
    let ms = parse_document("{\"a\":\"b\", \"o\":{}}").unwrap();
    assert!(matches!(ms[0].1, JsonValue::Str(_)));
    assert!(matches!(ms[1].1, JsonValue::Obj(_)));
    assert_eq!(ms[0].0, "a");
    assert_eq!(ms[1].0, "o");
}
