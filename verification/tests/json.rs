use gnosis_vpn::json::Json;

fn object(members: Vec<(&str, Json)>) -> Json {
    Json::object(members.into_iter().map(|(name, value)| (name.to_string(), value)).collect())
}

#[test]
fn members_are_found_by_name() {
    let document = object(vec![("a", Json::Number(1)), ("b", Json::text("x"))]);
    assert_eq!(document.member("a"), Some(&Json::Number(1)));
    assert_eq!(document.member("b"), Some(&Json::Text("x".to_string())));
    assert_eq!(document.member("c"), None);
}

#[test]
fn the_later_member_of_a_name_counts() {
    let document = object(vec![("a", Json::Number(1)), ("a", Json::Number(2))]);
    assert_eq!(document.member("a"), Some(&Json::Number(2)));
}

#[test]
fn only_objects_have_members() {
    assert_eq!(Json::Null.member("a"), None);
    assert_eq!(Json::array(vec![Json::Null]).member("a"), None);
    assert_eq!(Json::text("a").member("a"), None);
}

#[test]
fn documents_are_told_apart_by_kind() {
    assert_eq!(Json::text("a").as_text(), Some(&"a".to_string()));
    assert_eq!(Json::Number(3).as_text(), None);
    assert_eq!(Json::Number(3).as_number(), Some(3));
    assert_eq!(Json::Numeral("-1".to_string()).as_number(), None);
    assert_eq!(Json::array(vec![Json::Null]).as_array(), Some(&vec![Json::Null]));
    assert_eq!(Json::Null.as_array(), None);
    assert!(Json::Null.is_null());
    assert!(!Json::Bool(false).is_null());
}

#[test]
fn a_copy_is_the_same_document() {
    let document = object(vec![
        ("list", Json::array(vec![Json::Number(1), Json::Null, Json::Bool(true)])),
        ("inner", object(vec![("text", Json::text("x")), ("n", Json::Numeral("1.5".to_string()))])),
    ]);
    assert_eq!(document.duplicate(), document);
    assert_eq!(document.clone(), document);
}

fn from_value(value: &serde_json::Value) -> Json {
    match value {
        serde_json::Value::Null => Json::Null,
        serde_json::Value::Bool(b) => Json::Bool(*b),
        serde_json::Value::Number(n) => match n.as_u64() {
            Some(number) => Json::Number(number),
            None => Json::Numeral(n.to_string()),
        },
        serde_json::Value::String(s) => Json::Text(s.clone()),
        serde_json::Value::Array(items) => Json::Array(items.iter().map(from_value).collect()),
        serde_json::Value::Object(members) => {
            Json::Object(members.iter().map(|(name, value)| (name.clone(), from_value(value))).collect())
        }
    }
}

const TEXTS: [&str; 22] = [
    "null",
    "true",
    "false",
    "0",
    "60006",
    "18446744073709551615",
    "18446744073709551616",
    "-1",
    "1.5",
    "1e3",
    "\"\"",
    "\"a \\\"quoted\\\" text\\n\\u00e9\\ud83d\\ude00\"",
    "[]",
    "{}",
    "[1,[2,[3,[]]],{\"a\":[null]}]",
    "{\"b\":1,\"a\":{\"c\":\"d\"},\"e\":[true,false]}",
    " { \"spaced\" : [ 1 , 2 ] } ",
    "{\"a\":1,\"a\":2}",
    "{\"ip\":\"0.0.0.0\",\"port\":60006,\"protocol\":\"udp\",\"target\":\"wg-server:51820\"}",
    "[{\"hopr\":\"H\",\"native\":\"N\"}]",
    "\"Status\"",
    "{\"ExitNode\":{\"peer_id\":\"12D3KooWExit\"}}",
];

#[test]
fn a_text_is_read_as_the_document_that_it_stands_for() {
    for text in TEXTS {
        let value: serde_json::Value = serde_json::from_str(text).unwrap();
        assert_eq!(Json::parse(text), Some(from_value(&value)), "{text}");
    }
}

#[test]
fn a_document_is_written_as_the_text_that_stands_for_it() {
    for text in TEXTS {
        let value: serde_json::Value = serde_json::from_str(text).unwrap();
        assert_eq!(from_value(&value).render(), serde_json::to_string(&value).unwrap(), "{text}");
    }
}

#[test]
fn what_is_written_is_read_back() {
    for text in TEXTS {
        let document = Json::parse(text).unwrap();
        assert_eq!(Json::parse(&document.render()), Some(document), "{text}");
    }
}

#[test]
fn the_text_of_documents() {
    assert_eq!(Json::Null.render(), "null");
    assert_eq!(Json::Bool(true).render(), "true");
    assert_eq!(Json::Bool(false).render(), "false");
    assert_eq!(Json::Number(51820).render(), "51820");
    assert_eq!(Json::Numeral("-1.5".to_string()).render(), "-1.5");
    assert_eq!(Json::text("a\"b").render(), "\"a\\\"b\"");
    assert_eq!(Json::array(vec![]).render(), "[]");
    assert_eq!(Json::array(vec![Json::Number(1), Json::Null]).render(), "[1,null]");
    assert_eq!(object(vec![]).render(), "{}");
    assert_eq!(
        object(vec![("b", Json::Number(1)), ("a", Json::array(vec![Json::text("x")]))]).render(),
        "{\"b\":1,\"a\":[\"x\"]}"
    );
}

#[test]
fn what_is_no_document_is_refused() {
    for text in ["", " ", "nul", "{", "[1,]", "{\"a\"}", "01", "'a'", "1 2", "{\"a\":1}x"] {
        assert_eq!(Json::parse(text), None, "{text:?}");
    }
}

#[test]
fn numbers_are_told_apart() {
    assert_eq!(Json::parse("7"), Some(Json::Number(7)));
    assert_eq!(Json::parse("7.0"), Some(Json::Numeral("7.0".to_string())));
    assert_eq!(Json::parse("-7"), Some(Json::Numeral("-7".to_string())));
    assert_eq!(Json::parse("-0"), Some(Json::Numeral("-0.0".to_string())));
}

#[test]
fn a_document_may_be_nested_deep() {
    let deep = format!("{}{}", "[".repeat(100), "]".repeat(100));
    let read = Json::parse(&deep).unwrap();
    assert_eq!(read.render(), deep);
    let too_deep = format!("{}{}", "[".repeat(300), "]".repeat(300));
    assert_eq!(Json::parse(&too_deep), None);
}
