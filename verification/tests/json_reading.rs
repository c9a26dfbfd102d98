use ctxguard::json::{parse_json, Json};

#[test]
fn parses_objects_and_reads_members() {
    let doc = parse_json(r#"{"a":"x","n":42,"neg":-1,"f":1.5,"o":{"b":true}}"#).unwrap();
    assert_eq!(doc.get("a").and_then(|v| v.as_str()), Some("x"));
    assert_eq!(doc.get("n").and_then(|v| v.as_u64()), Some(42));
    assert_eq!(doc.get("neg").and_then(|v| v.as_u64()), None);
    assert_eq!(doc.get("f").and_then(|v| v.as_u64()), None);
    assert!(matches!(doc.get("o").and_then(|o| o.get("b")), Some(Json::Bool(true))));
    assert!(doc.get("missing").is_none());
}

#[test]
fn rejects_invalid_json() {
    assert!(parse_json("{").is_none());
    assert!(parse_json("").is_none());
    assert!(parse_json("{} trailing").is_none());
}

#[test]
fn later_duplicate_key_wins() {
    let doc = parse_json(r#"{"k":1,"k":2}"#).unwrap();
    assert_eq!(doc.get("k").and_then(|v| v.as_u64()), Some(2));
}

#[test]
fn non_objects_have_no_members() {
    let doc = parse_json("[1,2]").unwrap();
    assert!(doc.get("0").is_none());
    assert!(matches!(doc, Json::Array(ref v) if v.len() == 2));
    assert_eq!(parse_json("18446744073709551615").unwrap().as_u64(), Some(u64::MAX));
    assert!(matches!(parse_json("-5").unwrap(), Json::NegInt(-5)));
    assert!(matches!(parse_json("1e3").unwrap(), Json::Float));
}
