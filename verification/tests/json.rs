use teams_webhook_adapter::json::{
    push_bool, push_item, push_member, push_text, string_literal, JsonValue, Member,
};
use teams_webhook_adapter::text::{decimal, join, last_segment, str_eq, strip_prefix};

#[test]
fn parse_reads_every_kind_of_value() {
    let v = JsonValue::parse("{\"a\":null,\"b\":true,\"c\":12,\"d\":\"x\",\"e\":[1,\"y\"],\"f\":{}}")
        .unwrap();
    assert_eq!(v.get("a"), Some(&JsonValue::Null));
    assert_eq!(v.get("b"), Some(&JsonValue::Bool(true)));
    assert_eq!(v.get("c"), Some(&JsonValue::Number("12".to_string())));
    assert_eq!(v.get("d"), Some(&JsonValue::Text("x".to_string())));
    assert_eq!(
        v.get("e"),
        Some(&JsonValue::Array(vec![
            JsonValue::Number("1".to_string()),
            JsonValue::Text("y".to_string())
        ]))
    );
    assert_eq!(v.get("f"), Some(&JsonValue::Object(vec![])));
    assert_eq!(v.get("g"), None);
}

#[test]
fn parse_rejects_what_is_no_document() {
    assert_eq!(JsonValue::parse(""), None);
    assert_eq!(JsonValue::parse("{"), None);
    assert_eq!(JsonValue::parse("{\"a\":1} x"), None);
    assert_eq!(JsonValue::parse("{'a':1}"), None);
}

#[test]
fn parse_unescapes_strings() {
    let v = JsonValue::parse("\"a\\n\\\"b\\\" \\u2713\"").unwrap();
    assert_eq!(v, JsonValue::Text("a\n\"b\" \u{2713}".to_string()));
    assert_eq!(v.as_text(), Some("a\n\"b\" \u{2713}"));
}

#[test]
fn lookups_on_other_values_find_nothing() {
    let v = JsonValue::Array(vec![JsonValue::Text("a".to_string())]);
    assert_eq!(v.get("a"), None);
    assert_eq!(v.get_text("a"), None);
    assert_eq!(v.as_text(), None);
    assert_eq!(JsonValue::Null.as_text_list(), None);
    assert_eq!(v.as_text_list(), Some(vec!["a".to_string()]));
    let mixed = JsonValue::Array(vec![JsonValue::Text("a".to_string()), JsonValue::Bool(true)]);
    assert_eq!(mixed.as_text_list(), None);
    assert_eq!(JsonValue::Array(vec![]).as_text_list(), Some(vec![]));
}

#[test]
fn get_takes_the_first_member_with_the_key() {
    let mut fields = Vec::new();
    push_text(&mut fields, "k", "first");
    push_text(&mut fields, "k", "second");
    push_bool(&mut fields, "b", true);
    push_member(&mut fields, "n", JsonValue::Null);
    let v = JsonValue::Object(fields);
    assert_eq!(v.get_text("k"), Some("first"));
    assert_eq!(v.get("b"), Some(&JsonValue::Bool(true)));
    assert_eq!(v.get_text("b"), None);
    assert_eq!(v.get("n"), Some(&JsonValue::Null));
    assert_eq!(v.get_text_list("k"), None);
}

#[test]
fn to_text_is_compact_and_keeps_order() {
    let mut items = Vec::new();
    push_item(&mut items, JsonValue::Number("1".to_string()));
    push_item(&mut items, JsonValue::Null);
    push_item(&mut items, JsonValue::Bool(false));
    let v = JsonValue::Object(vec![
        Member { key: "z".to_string(), value: JsonValue::Array(items) },
        Member { key: "a".to_string(), value: JsonValue::Object(vec![]) },
        Member { key: "e".to_string(), value: JsonValue::Array(vec![]) },
        Member { key: "t".to_string(), value: JsonValue::Bool(true) },
    ]);
    assert_eq!(v.to_text(), "{\"z\":[1,null,false],\"a\":{},\"e\":[],\"t\":true}");
}

#[test]
fn to_text_round_trips_through_the_parser() {
    let text = "{\"a\":[1,2,{\"b\":\"c\\\"d\"}],\"e\":null,\"f\":-3}";
    let v = JsonValue::parse(text).unwrap();
    assert_eq!(v.to_text(), text);
    assert_eq!(JsonValue::parse(&v.to_text()), Some(v));
}

#[test]
fn string_literal_quotes_and_escapes() {
    assert_eq!(string_literal("hello"), "\"hello\"");
    assert_eq!(string_literal(""), "\"\"");
    assert_eq!(string_literal("a\"b"), "\"a\\\"b\"");
    assert_eq!(string_literal("a\\b"), "\"a\\\\b\"");
    assert_eq!(string_literal("line\nbreak\ttab"), "\"line\\nbreak\\ttab\"");
    assert_eq!(string_literal("\u{1}"), "\"\\u0001\"");
    assert_eq!(string_literal("\u{2713} ok"), "\"\u{2713} ok\"");
}

#[test]
fn string_literal_leaves_every_other_character_as_it_is() {
    assert_eq!(string_literal(" "), "\" \"");
    assert_eq!(string_literal("\u{7f}"), "\"\u{7f}\"");
    assert_eq!(string_literal("\u{80}\u{9f}"), "\"\u{80}\u{9f}\"");
    assert_eq!(string_literal("\u{2028}\u{2029}"), "\"\u{2028}\u{2029}\"");
    assert_eq!(string_literal("/<>&'"), "\"/<>&'\"");
    assert_eq!(string_literal("\u{10ffff}\u{1f600}"), "\"\u{10ffff}\u{1f600}\"");
    let mut all = String::new();
    for code in 0x20u32..0x3000 {
        if let Some(c) = char::from_u32(code) {
            if c != '"' && c != '\\' {
                all.push(c);
            }
        }
    }
    assert_eq!(string_literal(&all), format!("\"{}\"", all));
}

#[test]
fn string_literal_escapes_every_character_below_space() {
    assert_eq!(string_literal("\u{0}"), "\"\\u0000\"");
    assert_eq!(string_literal("\u{1f}"), "\"\\u001f\"");
    assert_eq!(string_literal("\u{8}\u{c}\r"), "\"\\b\\f\\r\"");
    for code in 0u32..0x20 {
        let c = char::from_u32(code).unwrap();
        let text = string_literal(&c.to_string());
        assert_ne!(text, format!("\"{}\"", c));
        assert!(text.starts_with("\"\\"));
    }
}

#[test]
fn str_eq_compares_letter_for_letter() {
    assert!(str_eq("abc", "abc"));
    assert!(str_eq("", ""));
    assert!(!str_eq("abc", "abd"));
    assert!(!str_eq("abc", "ab"));
    assert!(!str_eq("ab", "abc"));
    assert!(!str_eq("abc", "ABC"));
    assert!(str_eq("\u{2713}x", "\u{2713}x"));
    assert!(!str_eq("\u{2713}x", "\u{2714}x"));
    assert!(!str_eq("\u{e9}", "e"));
}

#[test]
fn join_keeps_order() {
    assert_eq!(join("ab", "cd"), "abcd");
    assert_eq!(join("", "cd"), "cd");
    assert_eq!(join("ab", ""), "ab");
}

#[test]
fn strip_prefix_gives_what_follows() {
    assert_eq!(strip_prefix("https://x/webhookb2/ABC123", "https://x/webhookb2/"), Some("ABC123".to_string()));
    assert_eq!(strip_prefix("abc", "abc"), Some(String::new()));
    assert_eq!(strip_prefix("abc", ""), Some("abc".to_string()));
    assert_eq!(strip_prefix("abc", "abcd"), None);
    assert_eq!(strip_prefix("xabc", "abc"), None);
    assert_eq!(strip_prefix("\u{2713}\u{2713}a", "\u{2713}"), Some("\u{2713}a".to_string()));
}

#[test]
fn last_segment_follows_the_last_slash() {
    assert_eq!(last_segment("a/b/c"), "c");
    assert_eq!(last_segment("ops/alerts"), "alerts");
    assert_eq!(last_segment("alerts"), "alerts");
    assert_eq!(last_segment("a/"), "");
    assert_eq!(last_segment(""), "");
    assert_eq!(last_segment("/x"), "x");
    assert_eq!(last_segment("\u{e9}/\u{2713}x"), "\u{2713}x");
}

#[test]
fn decimal_writes_numerals() {
    assert_eq!(decimal(0), "0");
    assert_eq!(decimal(7), "7");
    assert_eq!(decimal(10), "10");
    assert_eq!(decimal(12345), "12345");
    assert_eq!(decimal(9007199254740993), "9007199254740993");
    assert_eq!(decimal(usize::MAX), usize::MAX.to_string());
}
