//! Timestamp normalization of JSON payloads.

use bsky_rmcp::json::{convert_datetime, is_timestamp_key, JsonValue};

fn obj(entries: Vec<(&str, JsonValue)>) -> JsonValue {
    JsonValue::Obj(entries.into_iter().map(|(k, v)| (k.to_string(), v)).collect())
}

fn s(text: &str) -> JsonValue {
    JsonValue::Str(text.to_string())
}

/// The rewritten form: nine fraction digits, then `Z` or `+HH:MM`/`-HH:MM`.
fn assert_localized_shape(rewritten: &str) {
    let chars: Vec<char> = rewritten.chars().collect();
    let n = chars.len();
    if chars[n - 1] == 'Z' {
        assert_eq!(chars[n - 11], '.', "dot before nine fraction digits in {rewritten}");
        assert!(chars[n - 10..n - 1].iter().all(|c| c.is_ascii_digit()), "{rewritten}");
    } else {
        assert!(chars[n - 6] == '+' || chars[n - 6] == '-', "{rewritten}");
        assert_eq!(chars[n - 3], ':', "{rewritten}");
        assert!(chars[n - 5].is_ascii_digit() && chars[n - 4].is_ascii_digit(), "{rewritten}");
        assert!(chars[n - 2].is_ascii_digit() && chars[n - 1].is_ascii_digit(), "{rewritten}");
        assert_eq!(chars[n - 16], '.', "dot before nine fraction digits in {rewritten}");
        assert!(chars[n - 15..n - 6].iter().all(|c| c.is_ascii_digit()), "{rewritten}");
    }
}

fn rewritten_string(input: &str) -> String {
    let out = convert_datetime(&obj(vec![("createdAt", s(input))]));
    let JsonValue::Obj(entries) = out else { panic!("expected an object") };
    assert_eq!(entries.len(), 1);
    assert_eq!(entries[0].0, "createdAt");
    let JsonValue::Str(rewritten) = &entries[0].1 else { panic!("expected a string") };
    rewritten.clone()
}

#[test]
fn timestamp_keys_end_in_at() {
    assert!(is_timestamp_key("createdAt"));
    assert!(is_timestamp_key("indexedAt"));
    assert!(is_timestamp_key("At"));
    assert!(!is_timestamp_key("at"));
    assert!(!is_timestamp_key("t"));
    assert!(!is_timestamp_key(""));
    assert!(!is_timestamp_key("created_at"));
    assert!(!is_timestamp_key("Athlete"));
}

#[test]
fn rewrites_a_parsing_timestamp_to_the_same_instant() {
    let rewritten = rewritten_string("2024-01-15T12:30:45.123Z");
    let before = chrono::DateTime::parse_from_rfc3339("2024-01-15T12:30:45.123Z").unwrap();
    let after = chrono::DateTime::parse_from_rfc3339(&rewritten).unwrap();
    assert_eq!(before, after);
    assert_localized_shape(&rewritten);
}

#[test]
fn rewrite_keeps_sub_microsecond_precision() {
    let rewritten = rewritten_string("2024-01-15T12:30:45.123456789Z");
    let before = chrono::DateTime::parse_from_rfc3339("2024-01-15T12:30:45.123456789Z").unwrap();
    let after = chrono::DateTime::parse_from_rfc3339(&rewritten).unwrap();
    assert_eq!(before, after);
    assert_eq!(before.timestamp_subsec_nanos(), after.timestamp_subsec_nanos());
    assert_localized_shape(&rewritten);
}

#[test]
fn rewrite_always_writes_nine_fraction_digits() {
    // A three-digit fraction is widened, a missing fraction is added: the
    // input text never comes back unchanged in shape.
    for input in ["2023-06-01T00:00:00.5Z", "2023-06-01T00:00:00Z"] {
        let rewritten = rewritten_string(input);
        assert_localized_shape(&rewritten);
        let before = chrono::DateTime::parse_from_rfc3339(input).unwrap();
        let after = chrono::DateTime::parse_from_rfc3339(&rewritten).unwrap();
        assert_eq!(before, after);
    }
}

#[test]
fn far_away_years_are_still_rewritten_without_failure() {
    // Instants outside 1677-2262 overflow a nanosecond epoch counter in
    // some libraries; the rewrite must still answer, with the instant kept.
    for input in ["9999-04-12T23:20:50.123Z", "0001-01-01T00:00:00Z"] {
        let rewritten = rewritten_string(input);
        assert_localized_shape(&rewritten);
        let before = chrono::DateTime::parse_from_rfc3339(input).unwrap();
        let after = chrono::DateTime::parse_from_rfc3339(&rewritten).unwrap();
        assert_eq!(before, after);
    }
}

#[test]
fn a_non_parsing_string_under_a_timestamp_key_is_kept() {
    let input = obj(vec![("updatedAt", s("yesterday"))]);
    let out = convert_datetime(&input);
    assert_eq!(out, obj(vec![("updatedAt", s("yesterday"))]));
}

#[test]
fn a_timestamp_under_another_key_is_kept_exactly() {
    let input = obj(vec![("note", s("2024-01-15T12:30:45.123Z"))]);
    let out = convert_datetime(&input);
    assert_eq!(out, obj(vec![("note", s("2024-01-15T12:30:45.123Z"))]));
}

#[test]
fn non_string_values_under_timestamp_keys_are_kept() {
    let input = obj(vec![("createdAt", JsonValue::Bool(true)), ("endAt", JsonValue::Null)]);
    let out = convert_datetime(&input);
    assert_eq!(out, obj(vec![("createdAt", JsonValue::Bool(true)), ("endAt", JsonValue::Null)]));
}

#[test]
fn scalars_pass_through_unchanged() {
    assert_eq!(convert_datetime(&JsonValue::Null), JsonValue::Null);
    assert_eq!(convert_datetime(&JsonValue::Bool(false)), JsonValue::Bool(false));
    let n = JsonValue::Num(serde_json::Number::from(42u64));
    assert_eq!(convert_datetime(&n), JsonValue::Num(serde_json::Number::from(42u64)));
    assert_eq!(convert_datetime(&s("plain text")), s("plain text"));
}

#[test]
fn nested_structure_keys_and_order_are_preserved() {
    let input = obj(vec![
        ("posts", JsonValue::Arr(vec![
            obj(vec![
                ("text", s("hello")),
                ("indexedAt", s("2023-06-01T00:00:00.000Z")),
            ]),
            obj(vec![("text", s("world"))]),
        ])),
        ("cursor", s("abc")),
    ]);
    let out = convert_datetime(&input);
    let JsonValue::Obj(top) = out else { panic!("expected an object") };
    assert_eq!(top.len(), 2);
    assert_eq!(top[0].0, "posts");
    assert_eq!(top[1].0, "cursor");
    assert_eq!(top[1].1, s("abc"));
    let JsonValue::Arr(posts) = &top[0].1 else { panic!("expected an array") };
    assert_eq!(posts.len(), 2);
    let JsonValue::Obj(first) = &posts[0] else { panic!("expected an object") };
    assert_eq!(first[0], ("text".to_string(), s("hello")));
    assert_eq!(first[1].0, "indexedAt");
    let JsonValue::Str(stamp) = &first[1].1 else { panic!("expected a string") };
    assert_localized_shape(stamp);
    let JsonValue::Obj(second) = &posts[1] else { panic!("expected an object") };
    assert_eq!(second[0], ("text".to_string(), s("world")));
}

#[test]
fn timestamps_inside_arrays_of_objects_are_rewritten() {
    let stamp = "2022-12-31T23:59:59.000+09:00";
    let input = JsonValue::Arr(vec![obj(vec![("seenAt", s(stamp))])]);
    let out = convert_datetime(&input);
    let JsonValue::Arr(items) = out else { panic!("expected an array") };
    let JsonValue::Obj(entries) = &items[0] else { panic!("expected an object") };
    let JsonValue::Str(rewritten) = &entries[0].1 else { panic!("expected a string") };
    assert_localized_shape(rewritten);
    let before = chrono::DateTime::parse_from_rfc3339(stamp).unwrap();
    let after = chrono::DateTime::parse_from_rfc3339(rewritten).unwrap();
    assert_eq!(before, after);
}
