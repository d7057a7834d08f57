use quizroom::json::Json;
use quizroom::text::{contains_text, decimal_text, same_text};

#[test]
fn json_is_parsed_and_read() {
    let json = Json::parse("{\"event\": \"answer\", \"answer\": 3, \"ids\": [\"a\", 1, \"b\"]}").unwrap();
    assert_eq!(json.text_at("event"), Some("answer"));
    assert_eq!(json.unsigned_at("answer"), Some(3));
    let items = json.items_at("ids").unwrap();
    assert_eq!(items.len(), 3);
    assert_eq!(items[0].as_text(), Some("a"));
    assert_eq!(items[1].as_text(), None);
    assert_eq!(items[2].as_text(), Some("b"));
}

#[test]
fn missing_members_read_as_nothing() {
    let json = Json::parse("{\"a\": null}").unwrap();
    assert_eq!(json.text_at("a"), None);
    assert_eq!(json.text_at("b"), None);
    assert_eq!(json.unsigned_at("b"), None);
    assert!(json.items_at("b").is_none());
    let array = Json::parse("[1, 2]").unwrap();
    assert_eq!(array.text_at("event"), None);
    assert_eq!(array.as_text(), None);
}

#[test]
fn only_unsigned_integers_read_as_numbers() {
    let json = Json::parse("{\"a\": -1, \"b\": 1.0, \"c\": 18446744073709551615, \"d\": 18446744073709551616, \"e\": \"1\"}").unwrap();
    assert_eq!(json.unsigned_at("a"), None);
    assert_eq!(json.unsigned_at("b"), None);
    assert_eq!(json.unsigned_at("c"), Some(u64::MAX));
    assert_eq!(json.unsigned_at("d"), None);
    assert_eq!(json.unsigned_at("e"), None);
}

#[test]
fn broken_text_is_no_json() {
    assert!(Json::parse("gamestart").is_none());
    assert!(Json::parse("").is_none());
    assert!(Json::parse("{\"a\": 1").is_none());
    assert!(Json::parse("{} x").is_none());
}

#[test]
fn json_is_written_compactly_with_sorted_keys() {
    let json = Json::object()
        .with("z", Json::unsigned(7))
        .with("a", Json::array(vec![Json::boolean(true), Json::text("x\"y")]))
        .with("z", Json::text("later"));
    assert_eq!(json.to_text(), "{\"a\":[true,\"x\\\"y\"],\"z\":\"later\"}");
    assert_eq!(Json::object().to_text(), "{}");
    assert_eq!(Json::array(vec![]).to_text(), "[]");
}

#[test]
fn written_json_is_read_back() {
    let json = Json::object().with("data", Json::array(vec![Json::text("\u{e9}\n"), Json::unsigned(u64::MAX)]));
    let back = Json::parse(json.to_text().as_str()).unwrap();
    assert_eq!(back.to_text(), json.to_text());
    assert_eq!(back.items_at("data").unwrap()[0].as_text(), Some("\u{e9}\n"));
}

#[test]
fn negative_integers_are_read_back() {
    let json = Json::parse("[-1, -9223372036854775808]").unwrap();
    assert_eq!(json.to_text(), "[-1,-9223372036854775808]");
    assert_eq!(Json::parse("{\"a\": -1}").unwrap().unsigned_at("a"), None);
}

#[test]
fn other_numbers_are_read_back_as_numbers() {
    for text in ["1.5", "1e16", "1.0", "-0.0", "100000000000000000000", "5e-324", "1.7976931348623157e308", "-1.7976931348623157e308", "2.2250738585072014e-308", "123456789012345.6"] {
        let list = Json::parse(format!("[{},\"x\"]", text).as_str()).unwrap();
        let back = Json::parse(list.to_text().as_str()).unwrap();
        let holder = Json::object().with("a", back);
        let items = holder.items_at("a").unwrap();
        assert_eq!(items.len(), 2);
        assert_eq!(items[1].as_text(), Some("x"));
        let number = Json::object().with("n", items[0].clone());
        assert_eq!(number.unsigned_at("n"), None);
        assert_eq!(number.text_at("n"), None);
    }
    let greatest = Json::parse("1.7976931348623157e308").unwrap();
    assert_eq!(greatest.to_text(), "1.7976931348623157e+308");
}

#[test]
fn nesting_is_read_back_up_to_the_limit() {
    let mut deep = Json::text("x");
    for _ in 0..127 {
        deep = Json::array(vec![deep]);
    }
    assert!(Json::parse(deep.to_text().as_str()).is_some());
    let deeper = Json::array(vec![deep]);
    assert!(Json::parse(deeper.to_text().as_str()).is_none());
}

#[test]
fn a_copy_of_json_holds_the_same() {
    let json = Json::object().with("a", Json::unsigned(1));
    let copy = json.clone();
    assert_eq!(copy.with("b", Json::unsigned(2)).to_text(), "{\"a\":1,\"b\":2}");
    assert_eq!(json.to_text(), "{\"a\":1}");
}

#[test]
fn texts_are_compared() {
    assert!(same_text("continue", "continue"));
    assert!(!same_text("continue", "Continue"));
    assert!(same_text("", ""));
    let names = vec!["ann".to_string(), "bob".to_string()];
    assert!(contains_text(&names, "bob"));
    assert!(!contains_text(&names, "bo"));
    assert!(!contains_text(&vec![], "bob"));
}

#[test]
fn numbers_are_written_in_decimal() {
    assert_eq!(decimal_text(0), "0");
    assert_eq!(decimal_text(9), "9");
    assert_eq!(decimal_text(10), "10");
    assert_eq!(decimal_text(1000), "1000");
    assert_eq!(decimal_text(9999), "9999");
    assert_eq!(decimal_text(u64::MAX), "18446744073709551615");
}
