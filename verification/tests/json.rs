use stratumv1_proxy_rs::json::{field, Json, JsonError};

fn round(text: &str) -> String {
    Json::parse(text).unwrap().to_text()
}

#[test]
fn values_are_written_compactly() {
    assert_eq!(round(" null "), "null");
    assert_eq!(round("[ 1 , -2, 2.5, true , \"a\\u0041\" , [] , {} ]"), "[1,-2,2.5,true,\"aA\",[],{}]");
    assert_eq!(round("{\"b\": 1, \"a\": {\"c\": [null]}}"), "{\"a\":{\"c\":[null]},\"b\":1}");
    assert_eq!(round("\"a\\nb\""), "\"a\\nb\"");
}

#[test]
fn what_is_no_json_is_refused() {
    for text in ["", "{", "nope", "{\"a\":}", "1 2", "\"a\nb\""] {
        assert!(matches!(Json::parse(text), Err(JsonError::NotJson)), "{}", text);
    }
}

#[test]
fn the_later_of_two_fields_counts() {
    assert_eq!(round("{\"a\":1,\"a\":2}"), "{\"a\":2}");
    let fields = vec![
        ("a".to_string(), Json::from_u64(1)),
        ("b".to_string(), Json::Null),
        ("a".to_string(), Json::from_u64(2)),
    ];
    assert_eq!(field(&fields, "a").unwrap().to_text(), "2");
    assert_eq!(field(&fields, "b").unwrap().to_text(), "null");
    assert!(field(&fields, "c").is_none());
    assert_eq!(Json::object(fields).to_text(), "{\"a\":2,\"b\":null}");
}

#[test]
fn a_clone_is_written_alike() {
    let text = "[{\"a\":[1,2.5,-3],\"b\":\"x\"},null,false]";
    let json = Json::parse(text).unwrap();
    assert_eq!(json.clone().to_text(), text);
}

#[test]
fn values_are_indented() {
    assert_eq!(
        Json::parse("{\"a\":[1,{}],\"b\":[]}").unwrap().to_pretty_text().unwrap(),
        "{\n  \"a\": [\n    1,\n    {}\n  ],\n  \"b\": []\n}"
    );
}

#[test]
fn unsigned_numbers_are_their_digits() {
    for n in [0u64, 9, 10, 4294967295, u64::MAX] {
        let text = Json::from_u64(n).to_text();
        assert_eq!(text, n.to_string());
        assert_eq!(round(&text), text);
    }
}

#[test]
fn values_can_be_built() {
    assert_eq!(Json::string("a\"b\u{1}").to_text(), "\"a\\\"b\\u0001\"");
    assert_eq!(Json::array(vec![Json::Null, Json::string("x")]).to_text(), "[null,\"x\"]");
    let number = serde_json::Number::from(-7i64);
    assert_eq!(Json::Number(number).to_text(), "-7");
}

#[test]
fn nesting_is_followed_to_its_limit() {
    let nested = |levels: usize| format!("{}{}", "[".repeat(levels), "]".repeat(levels));
    assert_eq!(round(&nested(127)), nested(127));
    assert!(Json::parse(&nested(128)).is_err());
    let mut json = Json::array(vec![]);
    for _ in 0..127 {
        json = Json::array(vec![json]);
    }
    assert_eq!(json.to_text(), nested(128));
}

#[test]
fn a_newline_behind_a_value_does_not_count() {
    assert_eq!(round("{\"a\":1}\n"), "{\"a\":1}");
}

#[test]
fn integers_are_told_from_floats_and_read_back() {
    for text in ["0", "-1", "18446744073709551615", "-9223372036854775808", "{\"a\":[1,{\"b\":-2}]}"] {
        assert!(Json::parse(text).unwrap().is_free_of_floats(), "{}", text);
        assert_eq!(round(text), text);
    }
    for text in ["0.5", "1e3", "18446744073709551616", "[1,2.0]", "{\"a\":{\"b\":[1.5]}}"] {
        assert!(!Json::parse(text).unwrap().is_free_of_floats(), "{}", text);
    }
    let shadowed = Json::object(vec![
        ("a".to_string(), Json::parse("1.5").unwrap()),
        ("a".to_string(), Json::from_u64(1)),
    ]);
    assert!(!shadowed.is_free_of_floats());
}

#[test]
fn indented_and_compact_texts_are_read_alike() {
    for text in ["null", "[]", "{}", "[1,[2,{\"a\":\"x\\ny\",\"b\":[-3.25,true]}]]"] {
        let json = Json::parse(text).unwrap();
        let pretty = json.to_pretty_text().unwrap();
        assert_eq!(round(&pretty), json.to_text());
    }
}
