//! Decimal text, timestamps and gripper calibration.

use dora_openarm_vr::clock::{now_ns, timestamp_from_elapsed};
use dora_openarm_vr::text::decimal_string;
use dora_openarm_vr::transform::{gripper_span_degrees, Side};

#[test]
fn decimal_string_matches_display() {
    for v in [0i64, 7, 10, 99, 100, 12345, -1, -10, -908, i64::MIN, i64::MAX] {
        assert_eq!(decimal_string(v), v.to_string());
    }
}

#[test]
fn timestamps_saturate_and_default_to_zero() {
    assert_eq!(timestamp_from_elapsed(None), 0);
    assert_eq!(timestamp_from_elapsed(Some(1_500)), 1_500);
    assert_eq!(timestamp_from_elapsed(Some(i64::MAX as u128)), i64::MAX);
    assert_eq!(timestamp_from_elapsed(Some(i64::MAX as u128 + 1)), i64::MAX);
    assert_eq!(timestamp_from_elapsed(Some(u128::MAX)), i64::MAX);
}

#[test]
fn now_is_after_2020_and_does_not_go_backwards_much() {
    // 2020-01-01T00:00:00Z in nanoseconds.
    let jan_2020: i64 = 1_577_836_800_000_000_000;
    let a = now_ns();
    let b = now_ns();
    assert!(a > jan_2020);
    assert!(b > jan_2020);
}

#[test]
fn gripper_spans_mirror_each_other() {
    assert_eq!(gripper_span_degrees(Side::Right), (-45, 10));
    assert_eq!(gripper_span_degrees(Side::Left), (45, -10));
}
