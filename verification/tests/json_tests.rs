use agent_core::json::{parse_json, Json};

#[test]
fn test_to_text_scalars() {
    assert_eq!(Json::Null.to_text(), "null");
    assert_eq!(Json::Bool(true).to_text(), "true");
    assert_eq!(Json::Bool(false).to_text(), "false");
    assert_eq!(Json::Int(0).to_text(), "0");
    assert_eq!(Json::Int(-42).to_text(), "-42");
    assert_eq!(Json::Int(i64::MIN).to_text(), "-9223372036854775808");
    assert_eq!(Json::Text("plain".to_string()).to_text(), "\"plain\"");
}

#[test]
fn test_to_text_escaping() {
    let tricky = Json::Text("a\"b\\c\nd\te\r".to_string());
    assert_eq!(tricky.to_text(), "\"a\\\"b\\\\c\\nd\\te\\r\"");
    let control = Json::Text("\u{01}".to_string());
    assert_eq!(control.to_text(), "\"\\u0001\"");
}

#[test]
fn test_to_text_containers() {
    let value = Json::Obj(vec![
        ("list".to_string(), Json::Arr(vec![Json::Int(1), Json::Bool(false), Json::Null])),
        ("name".to_string(), Json::Text("x".to_string())),
    ]);
    assert_eq!(value.to_text(), "{\"list\":[1,false,null],\"name\":\"x\"}");
    assert_eq!(Json::Arr(Vec::new()).to_text(), "[]");
    assert_eq!(Json::Obj(Vec::new()).to_text(), "{}");
}

#[test]
fn test_parse_and_reserialize() {
    let parsed = parse_json("{\"a\": [1, true, null, \"x\"]}").expect("valid JSON parses");
    assert_eq!(parsed.to_text(), "{\"a\":[1,true,null,\"x\"]}");
}

#[test]
fn test_parse_rejects_invalid() {
    assert!(parse_json("{not json").is_none());
    assert!(parse_json("").is_none());
}

#[test]
fn test_parse_fractional_number_keeps_literal() {
    let parsed = parse_json("1.5").expect("a bare number parses");
    assert_eq!(parsed.to_text(), "1.5");
}

#[test]
fn test_nums_clean() {
    // parsed values always have newline-free number literals
    let parsed = parse_json("{\"x\": [1.25, 3]}").expect("valid JSON parses");
    assert!(parsed.nums_clean());
    assert!(!parsed.to_text().contains('\n'));

    // a hand-assembled literal can violate the framing requirement
    let bad = Json::Arr(vec![Json::Num("1\n2".to_string())]);
    assert!(!bad.nums_clean());

    let fine = Json::Obj(vec![("n".to_string(), Json::Num("6.02e23".to_string()))]);
    assert!(fine.nums_clean());
}

#[test]
fn test_get() {
    let parsed = parse_json("{\"outer\": {\"inner\": 7}}").expect("valid JSON parses");
    let outer = parsed.get("outer").expect("member exists");
    match outer.get("inner") {
        Some(Json::Int(n)) => assert_eq!(*n, 7),
        _ => panic!("inner member should be the integer 7"),
    }
    assert!(parsed.get("missing").is_none());
    assert!(Json::Null.get("anything").is_none());
}
