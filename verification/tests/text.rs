use codex_teams::escape::{html_escape, url_decode, url_encode, UrlDecodeError};
use codex_teams::form::{
    encode_query, form_filled, form_get, form_value, parse_form, split_ui_lines,
};
use codex_teams::journal::tail_chars;
use codex_teams::json::{json_pretty_text, json_text, parse_json, Json};
use codex_teams::model::{compact_one_line, format_compact_duration, sanitize_id};
use codex_teams::number::{decimal_text, integer_text, parse_unsigned};
use codex_teams::order::{text_comes_before, StringMap};
use codex_teams::split::{
    contains, join_with, keep_last, lines_of, rsplit_once, split_at_every, split_once,
    starts_with, strip_prefix, words_of,
};
use codex_teams::text::{text_is_blank, trimmed};
use codex_teams::time::{timestamp_for_ui, timestamp_sort_key};

#[test]
fn compact_duration_formats_status_ages() {
    assert_eq!(format_compact_duration(42), "42s");
    assert_eq!(format_compact_duration(125), "2m5s");
    assert_eq!(format_compact_duration(3_900), "1h5m");
    assert_eq!(format_compact_duration(176_400), "2d1h");
}

#[test]
fn ui_timestamps_are_rendered_in_tokyo_offset() {
    assert_eq!(
        timestamp_for_ui("2026-05-10T00:00:00Z"),
        "2026-05-10T09:00:00+09:00"
    );
    let now = chrono::Utc::now().to_rfc3339();
    assert!(timestamp_for_ui(&now).ends_with("+09:00"));
}

#[test]
fn unreadable_timestamps_are_shown_as_they_are() {
    assert_eq!(timestamp_for_ui("yesterday"), "yesterday");
    assert_eq!(timestamp_sort_key("yesterday"), 0);
    assert_eq!(timestamp_sort_key("1970-01-01T00:00:01.500Z"), 1500);
    assert_eq!(timestamp_sort_key("1970-01-01T09:00:01+09:00"), 1000);
}

#[test]
fn html_is_escaped() {
    assert_eq!(html_escape("<a href=\"x\">&</a>"), "&lt;a href=&quot;x&quot;&gt;&amp;&lt;/a&gt;");
    assert_eq!(html_escape("日本"), "日本");
}

#[test]
fn urls_are_encoded_byte_by_byte() {
    assert_eq!(url_encode("a b/é~"), "a+b%2F%C3%A9~");
    assert_eq!(url_decode("a+b%2F%C3%A9"), Ok("a b/é".to_string()));
    assert_eq!(url_decode("%zz"), Err(UrlDecodeError::InvalidEscape));
    assert_eq!(url_decode("%ff"), Err(UrlDecodeError::InvalidUtf8));
    assert_eq!(url_decode("100%"), Ok("100%".to_string()));
}

#[test]
fn decoding_undoes_encoding() {
    for text in ["", "a b", "+&=%", "日本語 100%", "\r\n\t\"'<>"] {
        assert_eq!(url_decode(&url_encode(text)), Ok(text.to_string()));
    }
}

#[test]
fn forms_are_parsed() {
    let form = parse_form("team=t1&message=a+b&empty=&=x&team=t2&flag");
    assert_eq!(form_get(&form, "team"), Some("t2".to_string()));
    assert_eq!(form_get(&form, "message"), Some("a b".to_string()));
    assert_eq!(form_get(&form, "empty"), Some("".to_string()));
    assert_eq!(form_filled(&form, "empty"), None);
    assert_eq!(form_get(&form, "flag"), Some("".to_string()));
    assert_eq!(form_value(&form, "message"), Ok("a b".to_string()));
    assert_eq!(form_value(&form, "empty"), Err("missing form field `empty`".to_string()));
    assert_eq!(form_value(&form, "none"), Err("missing form field `none`".to_string()));
    assert_eq!(form_get(&parse_form("a=%zz&b=1"), "a"), None);
}

#[test]
fn forms_read_back_encoded_queries() {
    let query = encode_query(&vec![("team", "a&b"), ("cwd", "/tmp/x y"), ("ja", "日本")]);
    let form = parse_form(&query);
    assert_eq!(form.len(), 3);
    assert_eq!(form_get(&form, "team"), Some("a&b".to_string()));
    assert_eq!(form_get(&form, "cwd"), Some("/tmp/x y".to_string()));
    assert_eq!(form_get(&form, "ja"), Some("日本".to_string()));
}

#[test]
fn ui_lines_are_split_at_lines_and_commas() {
    assert_eq!(split_ui_lines("a, b\r\n\n c ,,#d"), vec!["a", "b", "c"]);
    assert!(split_ui_lines(" \n ").is_empty());
}

#[test]
fn identifiers_are_file_names() {
    assert_eq!(sanitize_id(" a/b.c_d-é "), "a-b-c_d--");
    assert_eq!(sanitize_id(&sanitize_id(" a/b ")), "a-b");
    assert_eq!(sanitize_id("  "), "");
}

#[test]
fn long_texts_are_cut_on_one_line() {
    assert_eq!(compact_one_line(" a\n b\tc ", 20), "a b c");
    assert_eq!(compact_one_line("abcdef", 6), "abcdef");
    assert_eq!(compact_one_line("abcdefg", 6), "abcdef...");
}

#[test]
fn tails_are_counted_in_characters() {
    assert_eq!(tail_chars("short", 10), "short");
    assert_eq!(tail_chars("あいうえお", 2), "... trimmed ...\nえお");
}

#[test]
fn numbers_are_written_and_read() {
    assert_eq!(decimal_text(0), "0");
    assert_eq!(decimal_text(u64::MAX), "18446744073709551615");
    assert_eq!(integer_text(i64::MIN), "-9223372036854775808");
    assert_eq!(integer_text(-5), "-5");
    assert_eq!(parse_unsigned("65535", 65535), Some(65535));
    assert_eq!(parse_unsigned("65536", 65535), None);
    assert_eq!(parse_unsigned("+7", 65535), "+7".parse::<u16>().ok().map(u64::from));
    assert_eq!(parse_unsigned("", 65535), None);
    assert_eq!(parse_unsigned("-1", 65535), None);
    assert_eq!(parse_unsigned(&decimal_text(u64::MAX), u64::MAX), Some(u64::MAX));
}

#[test]
fn splitting_and_joining() {
    let parts = split_at_every("a,,b", ',');
    assert_eq!(parts, vec!["a", "", "b"]);
    assert_eq!(join_with(&parts, ","), "a,,b");
    assert_eq!(split_once("k=v=w", '='), Some(("k".to_string(), "v=w".to_string())));
    assert_eq!(rsplit_once("h:1:2", ':'), Some(("h:1".to_string(), "2".to_string())));
    assert_eq!(split_once("k", '='), None);
    assert_eq!(lines_of("a\r\nb\n\nc\n"), "a\r\nb\n\nc\n".lines().collect::<Vec<_>>());
    assert_eq!(words_of(" a\u{3000}b  c "), vec!["a", "b", "c"]);
    assert!(starts_with("abc", "ab") && !starts_with("a", "ab"));
    assert!(contains("abc", "bc") && contains("abc", "") && !contains("abc", "ac"));
    assert_eq!(strip_prefix("~/x", "~/"), Some("x".to_string()));
    assert_eq!(keep_last(vec!["a".to_string(), "b".to_string()], 1), vec!["b"]);
}

#[test]
fn white_space_is_trimmed() {
    for text in ["", " a ", "\u{3000}x\u{a0}", "\t\n", "a b"] {
        assert_eq!(trimmed(text), text.trim());
        assert_eq!(text_is_blank(text), text.trim().is_empty());
    }
}

#[test]
fn texts_are_ordered_as_strings_are() {
    for (a, b) in [("a", "b"), ("", "a"), ("Z", "a"), ("a", "aa"), ("é", "z"), ("\u{ffff}", "\u{10000}")] {
        assert_eq!(text_comes_before(a, b), a < b);
        assert_eq!(text_comes_before(b, a), b < a);
        assert!(!text_comes_before(a, a));
    }
}

#[test]
fn string_maps_keep_the_last_value_in_key_order() {
    let mut map: StringMap<u32> = StringMap::new();
    assert!(map.is_empty());
    map.insert("b".to_string(), 1);
    map.insert("a".to_string(), 2);
    map.insert("b".to_string(), 3);
    assert_eq!(map.len(), 2);
    assert_eq!(map.get("b"), Some(&3));
    assert_eq!(map.get("c"), None);
    assert!(map.contains_key("a"));
    let keys: Vec<&str> = map.as_items().iter().map(|(key, _)| key.as_str()).collect();
    assert_eq!(keys, vec!["a", "b"]);
}

#[test]
fn json_is_read_and_printed() {
    let value = parse_json(r#" {"b": [1, 2.50, -3e2, null, true], "a": "xé\n"} "#)
        .expect("valid JSON");
    assert_eq!(json_text(&value), r#"{"a":"xé\n","b":[1,2.5,-300.0,null,true]}"#);
    assert_eq!(
        json_pretty_text(&Json::empty_object().with_member("k", Json::flag(true))),
        "{\n  \"k\": true\n}"
    );
    assert_eq!(value.get_str("a"), Some("xé\n"));
    assert!(value.get("c").is_none());
    assert!(parse_json("{").is_err());
    assert!(parse_json("null").expect("null").is_null());
    assert_eq!(json_text(&value.copy()), json_text(&value));
}

#[test]
fn json_values_are_built() {
    let value = Json::empty_object()
        .with_member("none", Json::optional_text(&None))
        .with_member("some", Json::optional_text(&Some("x".to_string())))
        .with_member("list", Json::texts(&vec!["a".to_string()]));
    assert_eq!(json_text(&value), r#"{"list":["a"],"none":null,"some":"x"}"#);
    let list = parse_json(r#"["a", 1, "b"]"#).expect("list");
    assert_eq!(list.array_strings(), Some(vec!["a".to_string(), "b".to_string()]));
    assert_eq!(Json::text("a").array_strings(), None);
    assert_eq!(Json::text("a").as_str(), Some("a"));
    assert_eq!(Json::null().as_str(), None);
}
