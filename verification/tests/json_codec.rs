use llm_proxy::codec::{parse_json, print_json};
use llm_proxy::document::{document_to_value, value_to_document, Document, DocumentNumber};
use llm_proxy::json::{
    array_value, int_value, keys_are_distinct, object_value, string_value, JsonNumber, JsonValue,
};

fn float(text: &str) -> serde_json::Number {
    match serde_json::from_str::<serde_json::Value>(text).unwrap() {
        serde_json::Value::Number(n) => n,
        other => panic!("not a number: {:?}", other),
    }
}

fn member(key: &str, value: JsonValue) -> (String, JsonValue) {
    (key.to_string(), value)
}

#[test]
fn parse_reads_every_kind_of_value() {
    let parsed = parse_json("{\"a\":1,\"b\":[true,null,\"x\",-5,1.5],\"c\":{}}").unwrap();
    let expected = JsonValue::Object(vec![
        member("a", JsonValue::Number(JsonNumber::PosInt(1))),
        member(
            "b",
            JsonValue::Array(vec![
                JsonValue::Bool(true),
                JsonValue::Null,
                JsonValue::String("x".to_string()),
                JsonValue::Number(JsonNumber::NegInt(-5)),
                JsonValue::Number(JsonNumber::Float(float("1.5"))),
            ]),
        ),
        member("c", JsonValue::Object(vec![])),
    ]);
    assert_eq!(parsed, expected);
}

#[test]
fn parse_keeps_the_order_of_members() {
    let parsed = parse_json("{\"zeta\":1,\"alpha\":2,\"mid\":3}").unwrap();
    let expected = JsonValue::Object(vec![
        member("zeta", JsonValue::Number(JsonNumber::PosInt(1))),
        member("alpha", JsonValue::Number(JsonNumber::PosInt(2))),
        member("mid", JsonValue::Number(JsonNumber::PosInt(3))),
    ]);
    assert_eq!(parsed, expected);
}

#[test]
fn parse_tells_the_integers_apart_by_sign_and_size() {
    assert_eq!(parse_json("0").unwrap(), JsonValue::Number(JsonNumber::PosInt(0)));
    assert_eq!(
        parse_json("18446744073709551615").unwrap(),
        JsonValue::Number(JsonNumber::PosInt(u64::MAX))
    );
    assert_eq!(
        parse_json("-9223372036854775808").unwrap(),
        JsonValue::Number(JsonNumber::NegInt(i64::MIN))
    );
    assert_eq!(parse_json("-1").unwrap(), JsonValue::Number(JsonNumber::NegInt(-1)));
    assert_eq!(
        parse_json("2.0").unwrap(),
        JsonValue::Number(JsonNumber::Float(float("2.0")))
    );
}

#[test]
fn parse_rejects_what_is_no_json() {
    assert!(parse_json("").is_err());
    assert!(parse_json("{\"a\":").is_err());
    assert!(parse_json("not json").is_err());
    assert!(parse_json("{\"a\":1} trailing").is_err());
}

#[test]
fn parse_error_carries_the_readers_complaint() {
    let complaint = parse_json("{\"a\":").unwrap_err();
    assert_eq!(complaint, "EOF while parsing a value at line 1 column 5");
    assert_eq!(
        parse_json("{oops").unwrap_err(),
        "key must be a string at line 1 column 2"
    );
    assert_eq!(
        parse_json("").unwrap_err(),
        "EOF while parsing a value at line 1 column 0"
    );
}

#[test]
fn print_writes_every_kind_of_value() {
    let value = JsonValue::Object(vec![
        member("a", JsonValue::Number(JsonNumber::PosInt(1))),
        member(
            "b",
            JsonValue::Array(vec![
                JsonValue::Bool(true),
                JsonValue::Null,
                JsonValue::String("x\"y".to_string()),
                JsonValue::Number(JsonNumber::NegInt(-5)),
                JsonValue::Number(JsonNumber::Float(float("1.5"))),
            ]),
        ),
    ]);
    assert_eq!(
        print_json(&value).unwrap(),
        "{\"a\":1,\"b\":[true,null,\"x\\\"y\",-5,1.5]}"
    );
}

#[test]
fn print_keeps_the_order_of_members() {
    let value = JsonValue::Object(vec![
        member("zeta", JsonValue::Null),
        member("alpha", JsonValue::Null),
    ]);
    assert_eq!(print_json(&value).unwrap(), "{\"zeta\":null,\"alpha\":null}");
}

#[test]
fn print_then_parse_gives_the_value_back() {
    let value = JsonValue::Object(vec![
        member("n", JsonValue::Number(JsonNumber::NegInt(-42))),
        member("big", JsonValue::Number(JsonNumber::PosInt(u64::MAX))),
        member("f", JsonValue::Number(JsonNumber::Float(float("0.25")))),
        member("s", JsonValue::String("line\nbreak".to_string())),
        member("list", JsonValue::Array(vec![JsonValue::Bool(false)])),
    ]);
    let text = print_json(&value).unwrap();
    assert_eq!(parse_json(&text).unwrap(), value);
}

#[test]
fn get_finds_the_first_member_of_that_name() {
    let value = JsonValue::Object(vec![
        member("a", JsonValue::Bool(true)),
        member("b", JsonValue::Null),
    ]);
    assert_eq!(value.get("a"), Some(&JsonValue::Bool(true)));
    assert_eq!(value.get("b"), Some(&JsonValue::Null));
    assert_eq!(value.get("c"), None);
    assert_eq!(JsonValue::Bool(true).get("a"), None);
    assert_eq!(value.given("a"), Some(&JsonValue::Bool(true)));
    assert_eq!(value.given("b"), None);
}

#[test]
fn builders_make_the_values_they_name() {
    assert_eq!(int_value(7), JsonValue::Number(JsonNumber::PosInt(7)));
    assert_eq!(int_value(-7), JsonValue::Number(JsonNumber::NegInt(-7)));
    assert_eq!(string_value("hi"), JsonValue::String("hi".to_string()));
    assert_eq!(
        array_value(vec![JsonValue::Null]),
        JsonValue::Array(vec![JsonValue::Null])
    );
    assert_eq!(
        object_value(vec![
            ("a".to_string(), Some(JsonValue::Null)),
            ("b".to_string(), None),
            ("c".to_string(), Some(JsonValue::Bool(true))),
        ]),
        JsonValue::Object(vec![
            member("a", JsonValue::Null),
            member("c", JsonValue::Bool(true)),
        ])
    );
}

#[test]
fn value_to_document_maps_every_kind() {
    let value = parse_json("{\"n\":null,\"t\":true,\"u\":3,\"i\":-3,\"f\":1.5,\"s\":\"x\",\"a\":[1,[2]],\"o\":{\"k\":\"v\"}}")
        .unwrap();
    let expected = Document::Object(vec![
        ("n".to_string(), Document::Null),
        ("t".to_string(), Document::Bool(true)),
        ("u".to_string(), Document::Number(DocumentNumber::PosInt(3))),
        ("i".to_string(), Document::Number(DocumentNumber::NegInt(-3))),
        ("f".to_string(), Document::Number(DocumentNumber::Float(float("1.5")))),
        ("s".to_string(), Document::String("x".to_string())),
        (
            "a".to_string(),
            Document::Array(vec![
                Document::Number(DocumentNumber::PosInt(1)),
                Document::Array(vec![Document::Number(DocumentNumber::PosInt(2))]),
            ]),
        ),
        (
            "o".to_string(),
            Document::Object(vec![("k".to_string(), Document::String("v".to_string()))]),
        ),
    ]);
    assert_eq!(value_to_document(&value), expected);
}

#[test]
fn value_to_document_selects_integers_by_sign() {
    assert_eq!(
        value_to_document(&JsonValue::Number(JsonNumber::PosInt(u64::MAX))),
        Document::Number(DocumentNumber::PosInt(u64::MAX))
    );
    assert_eq!(
        value_to_document(&JsonValue::Number(JsonNumber::NegInt(5))),
        Document::Number(DocumentNumber::PosInt(5))
    );
    assert_eq!(
        value_to_document(&JsonValue::Number(JsonNumber::NegInt(i64::MIN))),
        Document::Number(DocumentNumber::NegInt(i64::MIN))
    );
    assert_eq!(
        value_to_document(&JsonValue::Number(JsonNumber::NegInt(0))),
        Document::Number(DocumentNumber::PosInt(0))
    );
}

#[test]
fn document_round_trip_gives_the_value_back() {
    let text = "{\"city\":\"Paris\",\"days\":3,\"offset\":-2,\"ratio\":0.5,\"tags\":[\"a\",null,true],\"nested\":{\"deep\":[{}]}}";
    let value = parse_json(text).unwrap();
    let back = document_to_value(&value_to_document(&value));
    assert_eq!(back, value);
    assert_eq!(print_json(&back).unwrap(), text);
}

#[test]
fn document_to_value_selects_integers_by_sign() {
    assert_eq!(
        document_to_value(&Document::Number(DocumentNumber::NegInt(9))),
        JsonValue::Number(JsonNumber::PosInt(9))
    );
    assert_eq!(
        document_to_value(&Document::Number(DocumentNumber::NegInt(-9))),
        JsonValue::Number(JsonNumber::NegInt(-9))
    );
}

#[test]
fn number_duplicate_is_the_same_number() {
    let n = JsonNumber::Float(float("3.25"));
    assert_eq!(n.duplicate(), n);
    assert_eq!(JsonNumber::PosInt(4).duplicate(), JsonNumber::PosInt(4));
    assert_eq!(JsonNumber::NegInt(-4).duplicate(), JsonNumber::NegInt(-4));
}

#[test]
fn print_always_gives_a_text_and_objects_open_with_a_brace() {
    let values = vec![
        JsonValue::Null,
        JsonValue::Object(vec![]),
        JsonValue::Object(vec![member("k", JsonValue::Array(vec![]))]),
        JsonValue::Array(vec![JsonValue::Object(vec![])]),
        JsonValue::String("[DONE]".to_string()),
    ];
    let texts: Vec<String> = values.iter().map(|v| print_json(v).unwrap()).collect();
    assert_eq!(texts, vec!["null", "{}", "{\"k\":[]}", "[{}]", "\"[DONE]\""]);
    for (value, text) in values.iter().zip(texts.iter()) {
        if let JsonValue::Object(_) = value {
            assert!(text.starts_with('{'));
        }
    }
}

#[test]
fn well_formed_values_are_told_apart() {
    let good = parse_json("{\"a\":[1,-2,0.5,{\"b\":null}],\"c\":\"x\"}").unwrap();
    assert!(good.is_well_formed());
    assert!(JsonValue::Null.is_well_formed());
    assert!(JsonValue::Array(vec![]).is_well_formed());
    assert!(JsonValue::Number(JsonNumber::NegInt(-1)).is_well_formed());
    assert!(!JsonValue::Number(JsonNumber::NegInt(0)).is_well_formed());
    assert!(!JsonValue::Number(JsonNumber::NegInt(3)).is_well_formed());
    assert!(JsonValue::Number(JsonNumber::Float(float("1.5"))).is_well_formed());
    assert!(!JsonValue::Number(JsonNumber::Float(float("7"))).is_well_formed());
    assert!(!JsonValue::Number(JsonNumber::Float(float("-7"))).is_well_formed());
    let twice = JsonValue::Object(vec![
        member("k", JsonValue::Null),
        member("other", JsonValue::Null),
        member("k", JsonValue::Bool(true)),
    ]);
    assert!(!twice.is_well_formed());
    assert!(!JsonValue::Array(vec![JsonValue::Null, twice]).is_well_formed());
    let deep = JsonValue::Object(vec![member(
        "outer",
        JsonValue::Array(vec![JsonValue::Number(JsonNumber::NegInt(1))]),
    )]);
    assert!(!deep.is_well_formed());
    assert!(keys_are_distinct(&vec![]));
    assert!(keys_are_distinct(&vec![member("a", JsonValue::Null), member("A", JsonValue::Null)]));
    assert!(!keys_are_distinct(&vec![
        member("a", JsonValue::Null),
        member("b", JsonValue::Null),
        member("b", JsonValue::Null),
    ]));
    assert!(JsonNumber::PosInt(0).is_well_formed());
}
