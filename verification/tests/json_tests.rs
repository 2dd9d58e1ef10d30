use agda_mode::json::{
    add_member, find, find_bool, find_i32, find_null, find_text, find_texts, find_u32, find_u32s,
    number, numbers, object, parse, push_json_quoted, strings, text, Json, MAX_DEPTH,
};

fn obj(members: Vec<(&str, Json)>) -> Json {
    Json::Object(members.into_iter().map(|(name, value)| (name.to_owned(), value)).collect())
}

#[test]
fn scalars_are_read() {
    assert_eq!(parse("null"), Some(Json::Null));
    assert_eq!(parse(" true "), Some(Json::Bool(true)));
    assert_eq!(parse("false"), Some(Json::Bool(false)));
    assert_eq!(parse("12"), Some(Json::Number("12".to_owned())));
    assert_eq!(parse("-7"), Some(Json::Number("-7".to_owned())));
    assert_eq!(parse("\"a\\\"b\\u00e9\""), Some(Json::Text("a\"b\u{e9}".to_owned())));
    assert_eq!(parse("\"null\""), Some(Json::Text("null".to_owned())));
}

#[test]
fn a_number_that_is_no_integer_keeps_a_numeral_that_is_none() {
    match parse("1.5") {
        Some(Json::Number(n)) => assert_eq!(n, "1.5"),
        other => panic!("{:?}", other),
    }
    match parse("1e2") {
        Some(Json::Number(n)) => assert_ne!(n, "100"),
        other => panic!("{:?}", other),
    }
}

#[test]
fn arrays_keep_their_order() {
    assert_eq!(parse("[]"), Some(Json::Array(vec![])));
    assert_eq!(
        parse("[3, \"x\", [null], {}]"),
        Some(Json::Array(vec![
            Json::Number("3".to_owned()),
            Json::Text("x".to_owned()),
            Json::Array(vec![Json::Null]),
            Json::Object(vec![]),
        ]))
    );
}

#[test]
fn members_come_in_the_order_of_their_names() {
    assert_eq!(
        parse("{\"b\": 1, \"a\": {\"z\": true, \"y\": [\"s\"]}}"),
        Some(obj(vec![
            (
                "a",
                obj(vec![
                    ("y", Json::Array(vec![Json::Text("s".to_owned())])),
                    ("z", Json::Bool(true)),
                ]),
            ),
            ("b", Json::Number("1".to_owned())),
        ]))
    );
}

#[test]
fn of_members_with_one_name_the_last_stays() {
    assert_eq!(parse("{\"a\":1,\"a\":2}"), Some(obj(vec![("a", Json::Number("2".to_owned()))])));
}

#[test]
fn what_is_no_json_has_no_value() {
    assert_eq!(parse(""), None);
    assert_eq!(parse("nul"), None);
    assert_eq!(parse("[1,]"), None);
    assert_eq!(parse("[1] 2"), None);
    assert_eq!(parse("{\"a\"}"), None);
    assert_eq!(parse("[1, [2, x]]"), None);
    assert_eq!(parse("{\"a\": {\"b\": tru}}"), None);
    assert_eq!(parse("'a'"), None);
}

#[test]
fn nesting_has_a_limit() {
    assert_eq!(MAX_DEPTH, 128);
    let deep = format!("{}{}", "[".repeat(200), "]".repeat(200));
    assert_eq!(parse(&deep), None);
    let fine = format!("{}{}", "[".repeat(20), "]".repeat(20));
    let mut expected = Json::Array(vec![]);
    for _ in 1..20 {
        expected = Json::Array(vec![expected]);
    }
    assert_eq!(parse(&fine), Some(expected));
}

#[test]
fn values_are_written_without_spaces() {
    assert_eq!(Json::Null.render(), "null");
    assert_eq!(Json::Bool(true).render(), "true");
    assert_eq!(Json::Bool(false).render(), "false");
    assert_eq!(Json::Number("-12".to_owned()).render(), "-12");
    assert_eq!(Json::Text("a\"b\\c\n\u{3bb}".to_owned()).render(), "\"a\\\"b\\\\c\\n\u{3bb}\"");
    assert_eq!(Json::Array(vec![]).render(), "[]");
    assert_eq!(Json::Object(vec![]).render(), "{}");
    let value = obj(vec![
        ("k\"", Json::Array(vec![Json::Null, Json::Number("1".to_owned()), Json::Bool(false)])),
        ("o", obj(vec![("x", Json::Text("y".to_owned()))])),
    ]);
    assert_eq!(value.render(), "{\"k\\\"\":[null,1,false],\"o\":{\"x\":\"y\"}}");
    let mut out = String::from("> ");
    value.render_into(&mut out);
    assert_eq!(out, "> {\"k\\\"\":[null,1,false],\"o\":{\"x\":\"y\"}}");
}

#[test]
fn what_is_written_is_read_back() {
    let value = obj(vec![
        ("a", Json::Array(vec![Json::Null, Json::Number("1".to_owned()), Json::Bool(false)])),
        ("b", obj(vec![("x", Json::Text("tab\there \u{2192} \"q\"".to_owned()))])),
    ]);
    assert_eq!(parse(&value.render()), Some(value));
}

#[test]
fn members_are_found_by_name_and_type() {
    let members = vec![
        ("t".to_owned(), Json::Text("x".to_owned())),
        ("b".to_owned(), Json::Bool(true)),
        ("n".to_owned(), Json::Number("7".to_owned())),
        ("m".to_owned(), Json::Number("-7".to_owned())),
        ("z".to_owned(), Json::Null),
        ("ns".to_owned(), Json::Array(vec![Json::Number("1".to_owned()), Json::Number("2".to_owned())])),
        ("ts".to_owned(), Json::Array(vec![Json::Text("a".to_owned())])),
        ("t".to_owned(), Json::Text("later".to_owned())),
    ];
    assert_eq!(find(&members, "b"), Some(&Json::Bool(true)));
    assert_eq!(find(&members, "t"), Some(&Json::Text("x".to_owned())));
    assert_eq!(find(&members, "q"), None);
    assert_eq!(find_text(&members, "t"), Some("x".to_owned()));
    assert_eq!(find_text(&members, "b"), None);
    assert_eq!(find_text(&members, "q"), None);
    assert_eq!(find_bool(&members, "b"), Some(true));
    assert_eq!(find_bool(&members, "t"), None);
    assert_eq!(find_u32(&members, "n"), Some(7));
    assert_eq!(find_u32(&members, "m"), None);
    assert_eq!(find_u32(&members, "t"), None);
    assert_eq!(find_i32(&members, "m"), Some(-7));
    assert_eq!(find_i32(&members, "n"), Some(7));
    assert_eq!(find_i32(&members, "z"), None);
    assert!(find_null(&members, "z"));
    assert!(!find_null(&members, "n"));
    assert!(!find_null(&members, "q"));
    assert_eq!(find_u32s(&members, "ns"), Some(vec![1, 2]));
    assert_eq!(find_u32s(&members, "ts"), None);
    assert_eq!(find_u32s(&members, "n"), None);
    assert_eq!(find_texts(&members, "ts"), Some(vec!["a".to_owned()]));
    assert_eq!(find_texts(&members, "ns"), None);
    assert_eq!(find_texts(&members, "q"), None);
}

#[test]
fn values_are_built() {
    assert_eq!(text("a"), Json::Text("a".to_owned()));
    assert_eq!(number(0), Json::Number("0".to_owned()));
    assert_eq!(number(-2147483648), Json::Number("-2147483648".to_owned()));
    assert_eq!(number(4294967295), Json::Number("4294967295".to_owned()));
    assert_eq!(number(i64::MIN), Json::Number("-9223372036854775808".to_owned()));
    assert_eq!(number(i64::MAX), Json::Number("9223372036854775807".to_owned()));
    assert_eq!(number(-1), Json::Number("-1".to_owned()));
    assert_eq!(
        numbers(&vec![1, 20]),
        Json::Array(vec![Json::Number("1".to_owned()), Json::Number("20".to_owned())])
    );
    assert_eq!(
        strings(&vec!["a".to_owned(), "".to_owned()]),
        Json::Array(vec![Json::Text("a".to_owned()), Json::Text("".to_owned())])
    );
    let mut members = Vec::new();
    add_member(&mut members, "a", Json::Null);
    add_member(&mut members, "b", Json::Bool(true));
    assert_eq!(object(members), obj(vec![("a", Json::Null), ("b", Json::Bool(true))]));
}

fn quoted(s: &str) -> String {
    let mut out = String::new();
    push_json_quoted(&mut out, s);
    out
}

#[test]
fn strings_are_escaped_as_json_asks() {
    assert_eq!(quoted(""), "\"\"");
    assert_eq!(quoted("a"), "\"a\"");
    assert_eq!(quoted("\"\\"), "\"\\\"\\\\\"");
    assert_eq!(quoted("\u{8}\t\n\u{c}\r"), "\"\\b\\t\\n\\f\\r\"");
    assert_eq!(quoted("\u{0}\u{1}\u{b}\u{1f}"), "\"\\u0000\\u0001\\u000b\\u001f\"");
    assert_eq!(quoted(" /'\u{7f}\u{3bb}\u{1f600}"), "\" /'\u{7f}\u{3bb}\u{1f600}\"");
    let mut out = String::from("k=");
    push_json_quoted(&mut out, "v");
    assert_eq!(out, "k=\"v\"");
}

#[test]
fn strings_are_written_as_serde_json_writes_them() {
    for code in 0u32..0x300 {
        let c = char::from_u32(code).unwrap();
        let s = format!("a{}b", c);
        assert_eq!(quoted(&s), serde_json::to_string(&s).unwrap(), "{:?}", c);
    }
    for s in ["", "\u{2028}\u{2029}", "\u{feff}x", "\u{10ffff}", "\\u0041", "tab\there"] {
        assert_eq!(quoted(s), serde_json::to_string(s).unwrap());
    }
}

#[test]
fn values_are_written_as_serde_json_writes_them() {
    for text in [
        "null",
        "[]",
        "{}",
        "[1,-2,true,false,null,\"x\"]",
        "{\"a\":{\"b\":[{\"c\":\"\\n\"}]},\"d\":\"\"}",
    ] {
        let value = parse(text).unwrap();
        let theirs: serde_json::Value = serde_json::from_str(text).unwrap();
        assert_eq!(value.render(), serde_json::to_string(&theirs).unwrap());
        assert_eq!(value.render(), text);
    }
}
