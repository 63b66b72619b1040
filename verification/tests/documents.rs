use manifold_domination::json::Json;

fn parse(text: &str) -> Json {
    match Json::parse(text) {
        Some(j) => j,
        None => panic!("no document: {}", text),
    }
}

#[test]
fn documents_are_read_into_trees() {
    match parse(r#" {"b": [true, null, "x\ny", {"c": -2}], "a": 1.50} "#) {
        Json::Object(members) => {
            assert_eq!(members.len(), 2);
            let a = members.iter().find(|m| m.0 == "a").unwrap();
            assert!(matches!(&a.1, Json::Number(n) if n == "1.5"));
            let b = members.iter().find(|m| m.0 == "b").unwrap();
            match &b.1 {
                Json::Array(items) => {
                    assert!(matches!(items[0], Json::Bool(true)));
                    assert!(matches!(items[1], Json::Null));
                    assert!(matches!(&items[2], Json::Text(t) if t == "x\ny"));
                    assert!(matches!(&items[3], Json::Object(inner) if inner.len() == 1));
                }
                other => panic!("expected a list, got {:?}", other),
            }
        }
        other => panic!("expected an object, got {:?}", other),
    }
}

#[test]
fn text_that_is_no_document_is_refused() {
    for text in ["", " ", "{", "{\"a\":}", "[1,]", "tru", "1 2", "{\"a\":1}x", "'a'", "NaN", "1e999"] {
        assert!(Json::parse(text).is_none(), "{:?}", text);
    }
}

#[test]
fn numbers_keep_their_numeral() {
    for (text, numeral) in [
        ("0", "0"),
        ("65", "65"),
        ("-7", "-7"),
        ("18446744073709551615", "18446744073709551615"),
        ("65.5", "65.5"),
        ("65.50", "65.5"),
        ("100.0", "100.0"),
        ("1e2", "100.0"),
        ("0.000001", "1e-6"),
        ("1e-7", "1e-7"),
        ("-0.0", "-0.0"),
        ("1e300", "1e+300"),
    ] {
        match parse(text) {
            Json::Number(n) => assert_eq!(n, numeral, "{}", text),
            other => panic!("expected a number, got {:?}", other),
        }
    }
}

#[test]
fn numbers_are_read_as_fixed_point() {
    assert_eq!(parse("65.5").as_fixed(4, 1_000_000), Some(655_000));
    assert_eq!(parse("0.000001").as_fixed(6, 1_000_000), Some(1));
    assert_eq!(parse("0.0000019").as_fixed(6, 1_000_000), Some(1));
    assert_eq!(parse("1e-7").as_fixed(6, 1_000_000), Some(0));
    assert_eq!(parse("1").as_fixed(6, 1_000_000), Some(1_000_000));
    assert_eq!(parse("1.0000001").as_fixed(6, 1_000_000), None);
    assert_eq!(parse("-0.0").as_fixed(6, 1_000_000), Some(0));
    assert_eq!(parse("-1e-9").as_fixed(6, 1_000_000), None);
    assert_eq!(parse("1e300").as_fixed(3, u64::MAX), None);
    assert_eq!(parse("1844674407370955.5").as_fixed(3, u64::MAX), Some(1_844_674_407_370_955_500));
    assert_eq!(parse("18446744073709551615").as_fixed(0, u64::MAX), Some(u64::MAX));
    assert_eq!(parse("18446744073709551615").as_fixed(1, u64::MAX), None);
    assert_eq!(parse("\"1\"").as_fixed(6, 1_000_000), None);
    assert_eq!(parse("true").as_fixed(6, 1_000_000), None);
}

#[test]
fn whole_numbers_are_digits_only() {
    assert_eq!(parse("0").as_whole(), Some(0));
    assert_eq!(parse("1700000000000").as_whole(), Some(1_700_000_000_000));
    assert_eq!(parse("18446744073709551615").as_whole(), Some(u64::MAX));
    assert_eq!(parse("18446744073709551616").as_whole(), None);
    assert_eq!(parse("-1").as_whole(), None);
    assert_eq!(parse("1.0").as_whole(), None);
    assert_eq!(parse("1e3").as_whole(), None);
    assert_eq!(parse("\"12\"").as_whole(), None);
    assert_eq!(parse("null").as_whole(), None);
}

#[test]
fn members_are_found_by_name() {
    let j = parse(r#"{"name": "x", "flag": false, "n": 3, "nothing": null, "list": []}"#);
    assert!(matches!(j.get("name"), Some(Json::Text(t)) if t == "x"));
    assert!(j.get("Name").is_none());
    assert!(j.get("").is_none());
    assert_eq!(j.text_member("name").as_deref(), Some("x"));
    assert_eq!(j.text_member("flag"), None);
    assert_eq!(j.text_member("missing"), None);
    assert_eq!(j.truth_member("flag"), Some(false));
    assert_eq!(j.truth_member("name"), None);
    assert_eq!(j.whole_member("n"), Some(3));
    assert_eq!(j.whole_member("nothing"), None);
    assert_eq!(j.optional_whole_member("n"), Some(Some(3)));
    assert_eq!(j.optional_whole_member("nothing"), Some(None));
    assert_eq!(j.optional_whole_member("missing"), Some(None));
    assert_eq!(j.optional_whole_member("name"), None);
    assert_eq!(j.optional_text_member("name"), Some(Some("x".to_string())));
    assert_eq!(j.optional_text_member("nothing"), Some(None));
    assert_eq!(j.optional_text_member("n"), None);
    assert_eq!(j.fixed_member("n", 3, 10_000), Some(3_000));
    assert_eq!(j.fixed_member("n", 3, 2_999), None);
    assert_eq!(j.optional_fixed_member("missing", 3, 10), Some(None));
    assert_eq!(j.optional_fixed_member("n", 1, 30), Some(Some(30)));
    assert_eq!(j.optional_fixed_member("flag", 1, 30), None);
    assert!(j.leaves_out("nothing"));
    assert!(j.leaves_out("missing"));
    assert!(!j.leaves_out("list"));
    assert!(matches!(j.get("list"), Some(Json::Array(items)) if items.is_empty()));
    assert_eq!(parse("true").as_bool(), Some(true));
    assert_eq!(parse("\"t\"").as_bool(), None);
    assert!(parse("[1]").get("0").is_none());
}

#[test]
fn member_can_be_taken_out() {
    let j = parse(r#"{"a": 1, "data": {"x": [1, 2]}, "z": 3}"#);
    match j.into_member("data") {
        Some(Json::Object(members)) => {
            assert_eq!(members.len(), 1);
            assert_eq!(members[0].0, "x");
        }
        other => panic!("expected the object, got {:?}", other),
    }
    assert!(parse(r#"{"a": 1}"#).into_member("data").is_none());
    assert!(parse("[]").into_member("data").is_none());
}
