use fz_bot::json::{parse_bytes, parse_text, Json};

#[test]
fn text_is_read() {
    let doc = parse_text(r#"{"type":"running","launchId":-7,"list":[1,true,null,"x"],"f":1.5}"#)
        .unwrap();
    assert_eq!(doc.member_text("type"), Some("running".to_string()));
    assert_eq!(doc.member_integer("launchId"), Some(-7));
    assert_eq!(doc.member_integer("f"), None);
    assert_eq!(doc.member_integer("type"), None);
    assert_eq!(doc.member_text("launchId"), None);
    assert_eq!(doc.member_text("absent"), None);
    match doc.member("f") {
        Some(Json::Number { integer, text }) => {
            assert_eq!(*integer, None);
            assert_eq!(text, "1.5");
        }
        _ => panic!("not a number"),
    }
    match doc.take_member("list") {
        Some(Json::Array(items)) => {
            assert_eq!(items.len(), 4);
            assert!(matches!(items[0], Json::Number { integer: Some(1), .. }));
            assert!(matches!(items[1], Json::Bool(true)));
            assert!(matches!(items[2], Json::Null));
            assert_eq!(items[3].text(), Some("x".to_string()));
        }
        _ => panic!("not an array"),
    }
}

#[test]
fn integers_have_limits() {
    let doc = parse_text(
        r#"{"max":9223372036854775807,"more":9223372036854775808,"min":-9223372036854775808}"#,
    )
    .unwrap();
    assert_eq!(doc.member_integer("max"), Some(i64::MAX));
    assert_eq!(doc.member_integer("more"), None);
    assert_eq!(doc.member_integer("min"), Some(i64::MIN));
}

#[test]
fn what_is_not_json_is_refused() {
    assert!(parse_text("").is_none());
    assert!(parse_text("{\"a\":}").is_none());
    assert!(parse_bytes(b"not json").is_none());
    assert!(parse_bytes(&[b'"', 0xff, b'"']).is_none());
}

#[test]
fn bytes_are_read() {
    let doc = parse_bytes("{\"a\":\"я\"}".as_bytes()).unwrap();
    assert_eq!(doc.member_text("a"), Some("я".to_string()));
}

#[test]
fn last_of_equal_keys_counts() {
    let doc = parse_text(r#"{"a":"1","b":"2","a":"3"}"#).unwrap();
    assert_eq!(doc.member_text("a"), Some("3".to_string()));
    match doc {
        Json::Object(members) => assert_eq!(members.len(), 2),
        _ => panic!("not an object"),
    }
}

#[test]
fn only_objects_have_members() {
    assert!(parse_text("[1]").unwrap().member("0").is_none());
    assert!(Json::Null.member("a").is_none());
    assert!(Json::Str("a".to_string()).take_member("a").is_none());
}
