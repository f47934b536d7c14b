//! Texts, paths and JSON values.
use agent_daemon::interop::{parse_json, pretty_json};
use agent_daemon::json::{Json, JsonObject};
use agent_daemon::paths::{is_plain_name, is_within, join};
use agent_daemon::text::{
    chars_of, contains_char, contains_text, decimal_i64, decimal_u64, last_nonempty_line, same,
    strip_prefix, strip_suffix,
};

#[test]
fn texts_are_searched() {
    assert!(same("a\u{e4}", "a\u{e4}"));
    assert!(!same("a", "ab"));
    assert!(contains_text("abcd", "bc"));
    assert!(contains_text("abcd", ""));
    assert!(!contains_text("abcd", "cb"));
    assert!(!contains_text("", "a"));
    assert!(contains_char("a/b", '/'));
    assert!(!contains_char("ab", '/'));
    assert_eq!(chars_of("a\u{1f600}b"), vec!['a', '\u{1f600}', 'b']);
}

#[test]
fn texts_are_stripped() {
    assert_eq!(strip_prefix("\u{e4}bc", "\u{e4}"), Some("bc"));
    assert_eq!(strip_prefix("abc", ""), Some("abc"));
    assert_eq!(strip_prefix("abc", "b"), None);
    assert_eq!(strip_prefix("a", "ab"), None);
    assert_eq!(strip_suffix("a.md", ".md"), Some("a"));
    assert_eq!(strip_suffix("md", ".md"), None);
}

#[test]
fn the_last_filled_line_is_found() {
    assert_eq!(last_nonempty_line("a\n  b \n\n \t\n").as_deref(), Some("b"));
    assert_eq!(last_nonempty_line("only").as_deref(), Some("only"));
    assert_eq!(last_nonempty_line(" \n"), None);
    assert_eq!(last_nonempty_line(""), None);
}

#[test]
fn numbers_are_written_in_decimal() {
    assert_eq!(decimal_u64(0), "0");
    assert_eq!(decimal_u64(u64::MAX), "18446744073709551615");
    assert_eq!(decimal_i64(-10), "-10");
    assert_eq!(decimal_i64(i64::MIN), "-9223372036854775808");
    assert_eq!(decimal_i64(i64::MAX), "9223372036854775807");
}

#[test]
fn paths_are_joined_and_held_within() {
    assert_eq!(join("/w", "a"), "/w/a");
    assert_eq!(join("/w/", "a"), "/w/a");
    assert!(is_plain_name("a.b"));
    for name in ["", ".", "..", "a/b", "/"] {
        assert!(!is_plain_name(name), "{name}");
    }
    assert!(is_within("/w/a", "/w"));
    assert!(is_within("/w", "/w"));
    assert!(!is_within("/wide", "/w"));
    assert!(!is_within("/", "/w"));
}

#[test]
fn json_values_are_read() {
    let value = parse_json(r#"{"a":[true,-1,18446744073709551615,1.5],"b":"t","a2":null}"#).unwrap();
    let Some(Json::List(list)) = value.get("a") else {
        panic!("no list")
    };
    assert_eq!(list[0].as_bool(), Some(true));
    assert_eq!(list[1].as_u64(), None);
    assert_eq!(list[2].as_u64(), Some(u64::MAX));
    assert_eq!(list[3].as_u64(), None);
    assert_eq!(value.get("b").as_ref().and_then(Json::as_str), Some("t"));
    assert_eq!(value.get("a2"), Some(Json::Null));
    assert_eq!(value.get("c"), None);
    assert_eq!(Json::Null.get("a"), None);
    assert!(parse_json("[1,]").unwrap_err().starts_with("trailing comma"));
}

#[test]
fn json_objects_keep_one_value_per_key() {
    let mut object = JsonObject::new()
        .with("k", Json::number(1))
        .with("k", Json::number(2))
        .with("l", Json::opt_text(None));
    assert_eq!(object.get("k").as_ref().and_then(Json::as_u64), Some(2));
    assert_eq!(pretty_json(&Json::Object(object.clone())), "{\n  \"k\": 2,\n  \"l\": null\n}");
    object.remove("k");
    assert_eq!(object.get("k"), None);
    object.insert("l", Json::count(3));
    assert_eq!(pretty_json(&Json::Object(object)), "{\n  \"l\": 3\n}");
}
