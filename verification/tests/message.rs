//! Reading Quest UDP datagrams.

use dora_openarm_vr::message::{
    json_truthy, number_text_is_zero, trim_text, JsonShape, QuestMessage,
};

#[test]
fn parses_a_well_formed_packet() {
    let data = br#"{"t": 1.0, "rt": 0.5, "a": true, "v": 0}"#;
    assert!(QuestMessage::parse(data).is_some());
}

#[test]
fn empty_datagram_is_not_a_message() {
    assert!(QuestMessage::parse(b"").is_none());
}

#[test]
fn whitespace_only_datagram_is_not_a_message() {
    assert!(QuestMessage::parse(b"   \n  ").is_none());
}

#[test]
fn invalid_json_is_not_a_message() {
    assert!(QuestMessage::parse(b"{not json").is_none());
}

#[test]
fn a_json_array_is_not_a_message() {
    assert!(QuestMessage::parse(b"[1, 2, 3]").is_none());
}

#[test]
fn trims_surrounding_whitespace_and_trailing_newline() {
    let data = b"  {\"v\": 1}  \n";
    let msg = QuestMessage::parse(data).unwrap();
    assert_eq!(msg.get_integer("v"), Some(1));
}

#[test]
fn has_field_is_true_only_when_the_key_is_present() {
    let msg = QuestMessage::parse(br#"{"rt": 0.5, "explicit_null": null}"#).unwrap();
    assert!(msg.has_field("rt"));
    assert!(msg.has_field("explicit_null"));
    assert!(!msg.has_field("missing"));
}

#[test]
fn unicode_white_space_around_the_object_is_trimmed() {
    let data = "\u{3000}\u{a0}{\"v\": 7}\u{2028}\t".as_bytes();
    let msg = QuestMessage::parse(data).unwrap();
    assert_eq!(msg.get_integer("v"), Some(7));
}

#[test]
fn white_space_inside_the_object_is_kept() {
    let msg = QuestMessage::parse(b"\n{ \"k\" :\n 3 }\n").unwrap();
    assert_eq!(msg.get_integer("k"), Some(3));
}

#[test]
fn a_bare_number_or_string_is_not_a_message() {
    assert!(QuestMessage::parse(b"42").is_none());
    assert!(QuestMessage::parse(b"\"text\"").is_none());
    assert!(QuestMessage::parse(b"null").is_none());
}

#[test]
fn invalid_utf8_is_replaced_rather_than_rejected() {
    // The invalid byte sits inside a string value: it decodes to U+FFFD
    // and the object still parses.
    let msg = QuestMessage::parse(b"{\"s\": \"\xff\", \"v\": 2}").unwrap();
    assert!(msg.has_field("s"));
    assert_eq!(msg.get_integer("v"), Some(2));
}

#[test]
fn invalid_utf8_outside_a_string_spoils_the_json() {
    assert!(QuestMessage::parse(b"{\"v\": 2}\xff").is_none());
}

#[test]
fn get_integer_reads_only_integral_numbers() {
    let msg = QuestMessage::parse(
        br#"{"v": 2, "neg": -5, "vf": 1.9, "s": "3", "n": null, "big": 18446744073709551615}"#,
    )
    .unwrap();
    assert_eq!(msg.get_integer("v"), Some(2));
    assert_eq!(msg.get_integer("neg"), Some(-5));
    assert_eq!(msg.get_integer("vf"), None);
    assert_eq!(msg.get_integer("s"), None);
    assert_eq!(msg.get_integer("n"), None);
    assert_eq!(msg.get_integer("big"), None);
    assert_eq!(msg.get_integer("missing"), None);
}

#[test]
fn a_repeated_key_keeps_its_last_value() {
    let msg = QuestMessage::parse(br#"{"v": 1, "v": 2}"#).unwrap();
    assert_eq!(msg.get_integer("v"), Some(2));
}

#[test]
fn a_cloned_message_has_the_same_fields() {
    let msg = QuestMessage::parse(br#"{"v": 1, "rt": 0.5}"#).unwrap();
    let copy = msg.clone();
    assert_eq!(copy.get_integer("v"), Some(1));
    assert!(copy.has_field("rt"));
    assert!(!copy.has_field("lt"));
    assert_eq!(copy.fields().len(), 2);
}

#[test]
fn truthiness_follows_python_for_every_json_kind() {
    assert!(!json_truthy(JsonShape::Null));
    assert!(json_truthy(JsonShape::Bool(true)));
    assert!(!json_truthy(JsonShape::Bool(false)));
    assert!(json_truthy(JsonShape::Number { zero: false }));
    assert!(!json_truthy(JsonShape::Number { zero: true }));
    assert!(json_truthy(JsonShape::Text { empty: false }));
    assert!(!json_truthy(JsonShape::Text { empty: true }));
    assert!(!json_truthy(JsonShape::List { empty: true }));
    assert!(json_truthy(JsonShape::List { empty: false }));
    assert!(!json_truthy(JsonShape::Object { empty: true }));
    assert!(json_truthy(JsonShape::Object { empty: false }));
}

#[test]
fn numbers_and_complete_poses_are_recognised() {
    let msg = QuestMessage::parse(
        br#"{"rt": 0.5, "v": 2, "s": "1", "n": null,
             "rc": {"x":1,"y":2,"z":3,"qx":0,"qy":0,"qz":0,"qw":1, "extra": "ok"},
             "lc": {"x":1,"y":2,"z":3,"qx":0,"qy":0,"qz":0},
             "rf": {"x":1,"y":2,"z":3,"qx":0,"qy":0,"qz":0,"qw":"1"},
             "bad": [1, 2]}"#,
    )
    .unwrap();
    assert!(msg.has_number("rt"));
    assert!(msg.has_number("v"));
    assert!(!msg.has_number("s"));
    assert!(!msg.has_number("n"));
    assert!(!msg.has_number("missing"));
    assert!(msg.has_pose("rc"));
    assert!(!msg.has_pose("lc"));
    assert!(!msg.has_pose("rf"));
    assert!(!msg.has_pose("bad"));
    assert!(!msg.has_pose("rt"));
    assert!(!msg.has_pose("missing"));
}

#[test]
fn a_cloned_message_equals_the_original() {
    let msg = QuestMessage::parse(br#"{"v": 1, "rt": 0.5}"#).unwrap();
    assert_eq!(msg.clone(), msg);
}

#[test]
fn get_bool_matches_python_truthiness_for_common_json_types() {
    let msg = QuestMessage::parse(
        br#"{"t": true, "f": false, "one": 1, "zero": 0, "s": "x", "empty_s": ""}"#,
    )
    .unwrap();
    assert_eq!(msg.get_bool("t"), Some(true));
    assert_eq!(msg.get_bool("f"), Some(false));
    assert_eq!(msg.get_bool("one"), Some(true));
    assert_eq!(msg.get_bool("zero"), Some(false));
    assert_eq!(msg.get_bool("s"), Some(true));
    assert_eq!(msg.get_bool("empty_s"), Some(false));
    assert_eq!(msg.get_bool("missing"), None);
}

#[test]
fn get_bool_reads_floats_arrays_objects_and_null() {
    let msg = QuestMessage::parse(
        br#"{"z": 0.0, "nz": -0.0, "e": 0e5, "small": 1e-300, "half": 0.5, "neg": -2,
             "a": [], "a1": [0], "o": {}, "o1": {"k": null}, "n": null}"#,
    )
    .unwrap();
    assert_eq!(msg.get_bool("z"), Some(false));
    assert_eq!(msg.get_bool("nz"), Some(false));
    assert_eq!(msg.get_bool("e"), Some(false));
    assert_eq!(msg.get_bool("small"), Some(true));
    assert_eq!(msg.get_bool("half"), Some(true));
    assert_eq!(msg.get_bool("neg"), Some(true));
    assert_eq!(msg.get_bool("a"), Some(false));
    assert_eq!(msg.get_bool("a1"), Some(true));
    assert_eq!(msg.get_bool("o"), Some(false));
    assert_eq!(msg.get_bool("o1"), Some(true));
    assert_eq!(msg.get_bool("n"), Some(false));
}

#[test]
fn number_texts_are_zero_only_without_a_nonzero_mantissa_digit() {
    assert!(number_text_is_zero("0"));
    assert!(number_text_is_zero("-0.0"));
    assert!(number_text_is_zero("0e7"));
    assert!(!number_text_is_zero("1e-300"));
    assert!(!number_text_is_zero("0.05"));
    assert!(!number_text_is_zero("-3"));
}

#[test]
fn trim_text_strips_white_space_at_both_ends_only() {
    assert_eq!(trim_text("  a b \n"), "a b");
    assert_eq!(trim_text("\u{3000}x\u{2029}"), "x");
    assert_eq!(trim_text(" \t\n "), "");
    assert_eq!(trim_text(""), "");
    assert_eq!(trim_text("\u{200b}x"), "\u{200b}x");
}
