//! Holding a document against a golden one.
use engine_core::json::{parse, to_text, Json};
use engine_core::policy::golden::{json_subset_mismatch, Mismatch};

fn doc(text: &str) -> Json {
    parse(text).expect("valid document")
}

/// Panics at the first place where `actual` departs from `expected`.
fn assert_json_subset(expected: &Json, actual: &Json) {
    if let Some(mismatch) = json_subset_mismatch(expected, actual) {
        panic!("{}", mismatch.message());
    }
}

#[test]
fn equal_objects_pass() {
    let v = doc(r#"{"a": 1, "b": {"c": "x"}, "d": [1, 2]}"#);
    assert_json_subset(&v, &v.clone());
}

#[test]
fn extra_keys_in_actual_pass() {
    let expected = doc(r#"{"a": 1, "nested": {"c": "x"}}"#);
    let actual = doc(r#"{"a": 1, "z": true, "nested": {"c": "x", "new_knob": null}}"#);
    assert_json_subset(&expected, &actual);
}

#[test]
#[should_panic(expected = "at `nested`: key `c` missing")]
fn missing_key_panics_with_path() {
    let expected = doc(r#"{"nested": {"c": "x"}}"#);
    let actual = doc(r#"{"nested": {"other": 1}}"#);
    assert_json_subset(&expected, &actual);
}

#[test]
#[should_panic(expected = "at `<root>`: key `a` missing")]
fn missing_root_key_panics_with_root_path() {
    assert_json_subset(&doc(r#"{"a": 1}"#), &doc(r#"{"b": 1}"#));
}

#[test]
#[should_panic(expected = "at `policy.model_tiers.review`")]
fn differing_leaf_panics_with_path() {
    let expected = doc(r#"{"policy": {"model_tiers": {"review": "local"}}}"#);
    let actual = doc(r#"{"policy": {"model_tiers": {"review": "sonnet"}}}"#);
    assert_json_subset(&expected, &actual);
}

#[test]
#[should_panic(expected = "at `list`: array length differs")]
fn array_length_mismatch_panics() {
    assert_json_subset(&doc(r#"{"list": [1, 2, 3]}"#), &doc(r#"{"list": [1, 2]}"#));
}

#[test]
#[should_panic(expected = "at `list[1].k`")]
fn array_element_mismatch_panics_with_index_path() {
    let expected = doc(r#"{"list": [{"k": 1}, {"k": 2}]}"#);
    let actual = doc(r#"{"list": [{"k": 1}, {"k": 99}]}"#);
    assert_json_subset(&expected, &actual);
}

#[test]
#[should_panic(expected = "array length differs")]
fn array_growth_is_drift_not_tolerated() {
    assert_json_subset(&doc(r#"[1]"#), &doc(r#"[1, 2]"#));
}

#[test]
#[should_panic(expected = "at `a`")]
fn type_change_panics() {
    assert_json_subset(&doc(r#"{"a": {"b": 1}}"#), &doc(r#"{"a": 5}"#));
}

#[test]
fn the_first_departure_is_told() {
    let expected = doc(r#"{"a": 1, "b": [true, "x"], "c": null}"#);
    assert_eq!(
        json_subset_mismatch(&expected, &doc(r#"{"b": [true, "y"], "a": 1}"#)),
        Some(Mismatch::Leaf {
            path: "b[1]".to_string(),
            expected: Json::text("x"),
            actual: Json::text("y"),
        })
    );
    assert_eq!(
        json_subset_mismatch(&expected, &doc(r#"{"a": 1, "b": [true]}"#)),
        Some(Mismatch::ArrayLength {
            path: "b".to_string(),
            expected: 2,
            actual: 1,
        })
    );
    assert_eq!(
        json_subset_mismatch(&expected, &doc(r#"{"a": 1, "b": [true, "x"]}"#)),
        Some(Mismatch::MissingKey {
            path: "<root>".to_string(),
            key: "c".to_string(),
            keys: vec!["a".to_string(), "b".to_string()],
        })
    );
}

#[test]
fn numbers_are_held_against_numbers_of_their_own_kind() {
    assert_eq!(json_subset_mismatch(&doc("-1"), &doc("-1")), None);
    assert_eq!(json_subset_mismatch(&doc("1.5"), &doc("1.5")), None);
    assert!(json_subset_mismatch(&doc("1"), &doc("1.0")).is_some());
    assert!(json_subset_mismatch(&doc("1"), &doc("-1")).is_some());
}

#[test]
fn the_two_zeros_are_one_value() {
    assert_eq!(json_subset_mismatch(&doc("0.0"), &doc("-0.0")), None);
    assert_eq!(json_subset_mismatch(&doc("-0.0"), &doc("0e3")), None);
    assert_eq!(json_subset_mismatch(&doc("[-0.0]"), &doc("[0.0]")), None);
    assert!(json_subset_mismatch(&doc("0"), &doc("0.0")).is_some());
    assert!(json_subset_mismatch(&doc("0.0"), &doc("0.5")).is_some());
}

#[test]
fn a_mismatch_shows_what_was_found() {
    let message = |expected: &str, actual: &str| {
        json_subset_mismatch(&doc(expected), &doc(actual))
            .expect("a mismatch")
            .message()
    };
    assert_eq!(
        message(r#"{"n": {"c": 1}}"#, r#"{"n": {"b\"": 1, "a": 2}}"#),
        r#"JSON subset mismatch at `n`: key `c` missing from actual (actual keys: ["a", "b\""])"#
    );
    assert_eq!(
        message(r#"{"c": 1}"#, "{}"),
        "JSON subset mismatch at `<root>`: key `c` missing from actual (actual keys: [])"
    );
    assert_eq!(
        message(r#"{"a": {"b": [1, -2, 2.5e-8, null]}}"#, r#"{"a": "x\ty"}"#),
        r#"JSON subset mismatch at `a`: expected {"b":[1,-2,2.5e-8,null]}, actual "x\ty""#
    );
    assert_eq!(
        message("[true]", "[1, 2]"),
        "JSON subset mismatch at `<root>`: array length differs (expected 1, actual 2)"
    );
}

#[test]
fn a_document_is_printed_as_it_is_read() {
    for text in [
        "null",
        "false",
        "18446744073709551615",
        "-9223372036854775808",
        "0.1",
        "-0.0",
        "1.7976931348623157e+308",
        "5e-324",
        r#""a\\b\"c\u0001\u00e9""#,
        r#"{"b":[{},[]],"a":{"z":1.5,"y":[true]}}"#,
    ] {
        let value: serde_json::Value = serde_json::from_str(text).unwrap();
        assert_eq!(to_text(&doc(text)), value.to_string());
        assert_eq!(doc(&to_text(&doc(text))), doc(text));
    }
}
