use gateway_events::json::{Json, has_key, obj_get, parse_json, parse_u64};

#[test]
fn parse_u64_values() {
    assert_eq!(parse_u64("0"), Some(0));
    assert_eq!(parse_u64("251"), Some(251));
    assert_eq!(parse_u64("007"), Some(7));
    assert_eq!(parse_u64("18446744073709551615"), Some(u64::MAX));
    // one past the largest value
    assert_eq!(parse_u64("18446744073709551616"), None);
    assert_eq!(parse_u64("99999999999999999999"), None);
    assert_eq!(parse_u64(""), None);
    assert_eq!(parse_u64("12a"), None);
    assert_eq!(parse_u64("-3"), None);
    assert_eq!(parse_u64(" 3"), None);
}

#[test]
fn parse_json_trees() {
    assert_eq!(parse_json("null"), Some(Json::Null));
    assert_eq!(parse_json("true"), Some(Json::Bool(true)));
    assert_eq!(parse_json("17"), Some(Json::UInt(17)));
    assert_eq!(parse_json("-17"), Some(Json::Int(-17)));
    assert_eq!(
        parse_json("\"hi\""),
        Some(Json::Str("hi".to_string()))
    );
    assert_eq!(
        parse_json("[1, null]"),
        Some(Json::Arr(vec![Json::UInt(1), Json::Null]))
    );
    assert_eq!(
        parse_json(r#"{"a": "b"}"#),
        Some(Json::Obj(vec![("a".to_string(), Json::Str("b".to_string()))]))
    );
    // a fractional number is kept only as a number's presence
    assert_eq!(parse_json("1.5"), Some(Json::NumOther));
    assert_eq!(parse_json(""), None);
    assert_eq!(parse_json("{\"a\":"), None);
    assert_eq!(parse_json("not json"), None);
}

#[test]
fn object_lookup_first_binding_wins() {
    let fields = vec![
        ("k".to_string(), Json::UInt(1)),
        ("k".to_string(), Json::UInt(2)),
        ("other".to_string(), Json::Null),
    ];
    assert_eq!(obj_get(&fields, "k"), Some(&Json::UInt(1)));
    assert_eq!(obj_get(&fields, "other"), Some(&Json::Null));
    assert_eq!(obj_get(&fields, "missing"), None);
    assert!(has_key(&fields, "k"));
    assert!(!has_key(&fields, "missing"));
}
