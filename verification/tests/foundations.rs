//! Text, documents, maps, records on lines, and points of time.
use chrono::{DateTime, Utc};
use engine_core::json::{parse, Json, JsonNumber};
use engine_core::jsonl::{appended, lines_in, records_in};
use engine_core::string_map::StringMap;
use engine_core::text::{
    decimal_text, has_prefix, is_before, is_whitespace, lines_of, parse_i32, trimmed,
};
use engine_core::time::Timestamp;

fn stamp(raw: &str) -> (Timestamp, DateTime<Utc>) {
    let t: DateTime<Utc> = DateTime::parse_from_rfc3339(raw).unwrap().with_timezone(&Utc);
    (Timestamp::from_unix(t.timestamp(), t.timestamp_subsec_nanos()), t)
}

#[test]
fn white_space_is_that_of_the_standard_library() {
    for c in (0u32..0x11_0000).filter_map(char::from_u32) {
        assert_eq!(is_whitespace(c), c.is_whitespace(), "{c:?}");
    }
}

#[test]
fn texts_are_trimmed_and_split_as_the_standard_library_does() {
    for s in [
        "", " ", "a", "\u{a0}a b\t\u{3000}", "a\n", "a\r\nb", "a\rb\n\nc\r", "\r\n", "\n\n", "a\r\r\nb",
    ] {
        assert_eq!(trimmed(s), s.trim());
        assert_eq!(lines_of(s), s.lines().collect::<Vec<_>>());
    }
}

#[test]
fn integers_are_read_as_the_standard_library_reads_them() {
    for s in [
        "", "-", "+", "0", "-0", "+7", "007", "12a", " 1", "--1", "2147483647", "2147483648",
        "-2147483648", "-2147483649", "99999999999999999999", "\u{0661}",
    ] {
        assert_eq!(parse_i32(s), s.parse::<i32>().ok(), "{s:?}");
    }
    for n in [0u64, 9, 10, 255, u64::MAX] {
        assert_eq!(decimal_text(n), n.to_string());
    }
}

#[test]
fn texts_are_ordered_as_strings_are() {
    let texts = ["", "a", "ab", "b", "\u{7f}", "\u{80}", "\u{ffff}", "\u{10000}", "Z"];
    for a in texts {
        for b in texts {
            assert_eq!(is_before(a, b), a < b, "{a:?} {b:?}");
            assert_eq!(has_prefix(a, b), a.starts_with(b), "{a:?} {b:?}");
        }
    }
}

#[test]
fn a_document_is_read_variant_by_variant() {
    let doc = parse(r#"{"a":[null,true,1,-2,1.5,"x"],"b":{},"n":18446744073709551615}"#).unwrap();
    assert_eq!(
        doc.get("a"),
        Some(&Json::Array(vec![
            Json::Null,
            Json::Bool(true),
            Json::Number(JsonNumber::PosInt(1)),
            Json::Number(JsonNumber::NegInt(-2)),
            Json::Number(JsonNumber::Float("1.5".to_string())),
            Json::Text("x".to_string()),
        ]))
    );
    assert_eq!(doc.get("b"), Some(&Json::object()));
    assert_eq!(doc.get("n").and_then(Json::as_u64), Some(u64::MAX));
    assert_eq!(doc.get("n").and_then(Json::as_i64), None);
    assert_eq!(doc.get("c"), None);
    assert_eq!(doc.get_str("a"), None);
    let message = parse("{").unwrap_err();
    assert!(message.contains("EOF while parsing"), "{message}");
}

#[test]
fn of_a_member_written_twice_the_last_counts() {
    let doc = parse(r#"{"a":1,"a":2}"#).unwrap();
    assert_eq!(doc.get("a").and_then(Json::as_u64), Some(2));
    let doc = Json::object().with("a", Json::uint(1)).with("a", Json::sint(-3));
    assert_eq!(doc.get("a").and_then(Json::as_i64), Some(-3));
    assert_eq!(doc, Json::object().with("a", Json::sint(-3)));
}

#[test]
fn a_map_holds_one_value_under_a_key() {
    let mut map: StringMap<u32> = StringMap::new();
    map.insert("a".to_string(), 1);
    map.insert("b".to_string(), 2);
    map.insert("a".to_string(), 3);
    assert_eq!(map.len(), 2);
    assert_eq!(map.get("a"), Some(&3));
    assert_eq!(map.entry(0), ("a", &3));
    assert_eq!(map.get("c"), None);
    let mut more: StringMap<u32> = StringMap::new();
    more.insert("b".to_string(), 5);
    more.insert("c".to_string(), 6);
    map.extend(more);
    assert!(map.contains_key("c"));
    assert_eq!(map.len(), 3);
    assert_eq!(map.take("b"), Some(5));
}

#[test]
fn an_appended_line_is_read_back_behind_the_others() {
    let mut file = b"first\r\nsecond\n".to_vec();
    file.extend(appended("third \u{e9}"));
    let lines: Vec<Option<String>> = lines_in(&file);
    assert_eq!(
        lines,
        [
            Some("first".to_string()),
            Some("second".to_string()),
            Some("third \u{e9}".to_string())
        ]
    );
}

#[test]
fn an_appended_record_follows_the_others() {
    let decode = |s: &str| parse_i32(s);
    let mut file = b"1\nx\n2\n".to_vec();
    for (line, expected) in [
        ("3", vec![1, 2, 3]),
        (" 4\r", vec![1, 2, 3, 4]),
        ("", vec![1, 2, 3, 4]),
        ("y", vec![1, 2, 3, 4]),
        ("5", vec![1, 2, 3, 4, 5]),
    ] {
        file.extend(appended(line));
        assert_eq!(records_in(&file, decode), expected);
    }
}

#[test]
fn lines_that_are_no_record_are_passed_over() {
    let file = b" 1 \n\n\xff\nx\n2";
    assert_eq!(lines_in(file)[2], None);
    assert_eq!(records_in(file, |s: &str| parse_i32(s)), [1, 2]);
}

#[test]
fn spans_are_counted_across_leap_seconds() {
    let raws = [
        "2016-12-31T23:59:59.25Z",
        "2016-12-31T23:59:60.5Z",
        "2017-01-01T00:00:00Z",
        "2017-01-01T00:00:30Z",
        "2016-12-31T12:00:00Z",
        "2016-12-31T12:34:60Z",
        "2016-12-31T12:40:00Z",
        "1969-12-31T23:59:59.999999999Z",
        "1960-02-29T01:02:03Z",
    ];
    for a in raws {
        for b in raws {
            let (x, s) = stamp(a);
            let (y, t) = stamp(b);
            let span = s - t;
            let nanos = i128::from(span.num_seconds()) * 1_000_000_000
                + i128::from(span.subsec_nanos());
            assert_eq!(x.since(&y).nanos, nanos, "{a} {b}");
            assert_eq!(x.is_before(&y), s < t, "{a} {b}");
        }
    }
}
