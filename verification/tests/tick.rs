//! Per-tick decisions: gating, order, filter steps and validity reports.

use dora_openarm_vr::message::QuestMessage;
use dora_openarm_vr::tick::{
    is_tick_input, validity_name, Button, Emission, FilterStep, PacketFields, Scalar, TickOutcome,
    TickProcessor, Truncations, STATUS,
};
use dora_openarm_vr::transform::Side;

fn no_fields() -> PacketFields {
    PacketFields {
        overall_validity: None,
        right_validity: None,
        left_validity: None,
        has_reference_pose: false,
        has_right_pose: false,
        has_left_pose: false,
        trigger_right: false,
        trigger_left: false,
        grip_right: false,
        grip_left: false,
        joystick_x_left: false,
        joystick_y_left: false,
        joystick_x_right: false,
        joystick_y_right: false,
        button_a: None,
        button_b: None,
        button_x: None,
        button_y: None,
    }
}

fn ids(emissions: &[Emission]) -> Vec<&'static str> {
    emissions.iter().map(|e| e.output_id()).collect()
}

#[test]
fn no_recv_timestamps_and_no_message_emits_nothing() {
    let mut tick = TickProcessor::new();
    let outcome = tick.process_tick(&[], None);
    assert!(outcome.emissions.is_empty());
    assert!(outcome.validity_transition.is_none());
}

#[test]
fn recv_timestamps_are_emitted_even_when_there_is_no_latest_message() {
    let mut tick = TickProcessor::new();
    let outcome = tick.process_tick(&[10, 20], None);
    assert_eq!(ids(&outcome.emissions), vec!["vr_receive_times"]);
    assert_eq!(outcome.emissions, vec![Emission::ReceiveTimes]);
}

#[test]
fn empty_recv_timestamps_are_not_emitted() {
    let mut tick = TickProcessor::new();
    // {"rc": {...}, "rt": 0.0}
    let packet = PacketFields { has_right_pose: true, trigger_right: true, ..no_fields() };
    let outcome = tick.process_tick(&[], Some(&packet));
    assert!(!ids(&outcome.emissions).contains(&"vr_receive_times"));
}

#[test]
fn pose_right_requires_both_the_controller_pose_and_the_trigger() {
    let mut tick = TickProcessor::new();
    // {"rc": {...}}
    let packet = PacketFields { has_right_pose: true, ..no_fields() };
    let outcome = tick.process_tick(&[], Some(&packet));
    assert!(!ids(&outcome.emissions).contains(&"pose_right"));
    assert!(!ids(&outcome.emissions).contains(&"trigger_right"));
}

#[test]
fn pose_reference_does_not_require_a_trigger() {
    let mut tick = TickProcessor::new();
    // {"rf": {...}}
    let packet = PacketFields { has_reference_pose: true, ..no_fields() };
    let outcome = tick.process_tick(&[], Some(&packet));
    assert!(ids(&outcome.emissions).contains(&"pose_reference"));
}

fn full_packet() -> PacketFields {
    PacketFields {
        overall_validity: None,
        right_validity: None,
        left_validity: None,
        has_reference_pose: true,
        has_right_pose: true,
        has_left_pose: true,
        trigger_right: true,
        trigger_left: true,
        grip_right: true,
        grip_left: true,
        joystick_x_left: true,
        joystick_y_left: true,
        joystick_x_right: true,
        joystick_y_right: true,
        button_a: Some(true),
        button_b: Some(false),
        button_x: Some(true),
        button_y: Some(false),
    }
}

#[test]
fn full_message_emits_all_outputs_in_upstreams_exact_order() {
    let mut tick = TickProcessor::new();
    let outcome = tick.process_tick(&[100], Some(&full_packet()));

    assert_eq!(
        ids(&outcome.emissions),
        vec![
            "vr_receive_times",
            "pose_right",
            "pose_left",
            "pose_reference",
            "trigger_right",
            "trigger_left",
            "grip_right",
            "grip_left",
            "joystick_x_left",
            "joystick_y_left",
            "joystick_x_right",
            "joystick_y_right",
            "button_a",
            "button_b",
            "button_x",
            "button_y",
        ]
    );
}

#[test]
fn invalid_right_validity_suppresses_pose_right_and_resets_on_recovery() {
    let mut tick = TickProcessor::new();
    let first = PacketFields { has_right_pose: true, trigger_right: true, ..no_fields() };
    let outcome1 = tick.process_tick(&[], Some(&first));
    assert!(outcome1.emissions.contains(&Emission::ControllerPose(Side::Right)));
    assert_eq!(outcome1.right_filter, FilterStep::Smooth);

    let invalid = PacketFields { right_validity: Some(2), ..first };
    let outcome2 = tick.process_tick(&[], Some(&invalid));
    assert!(!outcome2.emissions.contains(&Emission::ControllerPose(Side::Right)));
    // The step into INVALID clears the right filter ...
    assert_eq!(outcome2.right_filter, FilterStep::Reset);

    let outcome3 = tick.process_tick(&[], Some(&first));
    // ... so the first pose after recovery is fed into a fresh filter.
    assert!(outcome3.emissions.contains(&Emission::ControllerPose(Side::Right)));
    assert_eq!(outcome3.right_filter, FilterStep::Smooth);
}

#[test]
fn validity_change_produces_a_transition_message_only_on_change() {
    let mut tick = TickProcessor::new();

    let ok = PacketFields { overall_validity: Some(0), ..no_fields() };
    let outcome1 = tick.process_tick(&[], Some(&ok));
    assert!(outcome1.validity_transition.is_none());

    let stale = PacketFields { overall_validity: Some(1), ..no_fields() };
    let outcome2 = tick.process_tick(&[], Some(&stale));
    assert!(outcome2.validity_transition.is_some());

    let outcome3 = tick.process_tick(&[], Some(&stale));
    assert!(outcome3.validity_transition.is_none());
}

#[test]
fn missing_validity_fields_default_to_ok() {
    let mut tick = TickProcessor::new();
    let packet = PacketFields { has_right_pose: true, trigger_right: true, ..no_fields() };
    let outcome = tick.process_tick(&[], Some(&packet));
    assert!(outcome.emissions.contains(&Emission::ControllerPose(Side::Right)));
}

#[test]
fn the_transition_line_names_all_four_codes() {
    let mut tick = TickProcessor::new();
    let packet = PacketFields {
        overall_validity: Some(2),
        right_validity: Some(1),
        left_validity: Some(-7),
        ..no_fields()
    };
    let outcome = tick.process_tick(&[], Some(&packet));
    assert_eq!(
        outcome.validity_transition.as_deref(),
        Some("[receiver] validity: OK -> INVALID (L=-7, R=STALE)")
    );
}

#[test]
fn validity_names_match_the_quest_codes() {
    assert_eq!(validity_name(0), "OK");
    assert_eq!(validity_name(1), "STALE");
    assert_eq!(validity_name(2), "INVALID");
    assert_eq!(validity_name(3), "3");
    assert_eq!(validity_name(-1), "-1");
    assert_eq!(validity_name(i64::MIN), i64::MIN.to_string());
    assert_eq!(validity_name(i64::MAX), i64::MAX.to_string());
}

#[test]
fn an_invalid_stretch_resets_each_filter_once() {
    let mut tick = TickProcessor::new();
    let invalid = PacketFields {
        overall_validity: Some(2),
        right_validity: Some(2),
        left_validity: Some(2),
        ..full_packet()
    };
    let first = tick.process_tick(&[], Some(&invalid));
    assert_eq!(
        (first.right_filter, first.left_filter, first.reference_filter),
        (FilterStep::Reset, FilterStep::Reset, FilterStep::Reset)
    );
    let second = tick.process_tick(&[], Some(&invalid));
    assert_eq!(
        (second.right_filter, second.left_filter, second.reference_filter),
        (FilterStep::Hold, FilterStep::Hold, FilterStep::Hold)
    );
    // No pose is sent while INVALID; the plain fields still are.
    assert_eq!(
        ids(&second.emissions),
        vec![
            "trigger_right",
            "trigger_left",
            "grip_right",
            "grip_left",
            "joystick_x_left",
            "joystick_y_left",
            "joystick_x_right",
            "joystick_y_right",
            "button_a",
            "button_b",
            "button_x",
            "button_y",
        ]
    );
}

#[test]
fn a_tick_without_a_packet_keeps_the_remembered_codes() {
    let mut tick = TickProcessor::new();
    let stale = PacketFields { overall_validity: Some(1), ..no_fields() };
    assert!(tick.process_tick(&[], Some(&stale)).validity_transition.is_some());
    let idle = tick.process_tick(&[5], None);
    assert_eq!(idle.emissions, vec![Emission::ReceiveTimes]);
    assert_eq!(
        (idle.right_filter, idle.left_filter, idle.reference_filter),
        (FilterStep::Hold, FilterStep::Hold, FilterStep::Hold)
    );
    assert!(tick.process_tick(&[], Some(&stale)).validity_transition.is_none());
}

#[test]
fn buttons_carry_their_truth_value() {
    let mut tick = TickProcessor::new();
    let packet = PacketFields { button_b: Some(false), button_y: Some(true), ..no_fields() };
    let outcome = tick.process_tick(&[], Some(&packet));
    assert_eq!(
        outcome.emissions,
        vec![Emission::Button(Button::B, false), Emission::Button(Button::Y, true)]
    );
}

#[test]
fn field_keys_and_output_ids_match_the_protocol() {
    assert_eq!(Scalar::TriggerRight.key(), "rt");
    assert_eq!(Scalar::JoystickYRight.key(), "rsy");
    assert_eq!(Button::X.key(), "x");
    assert_eq!(Emission::Scalar(Scalar::GripLeft).output_id(), "grip_left");
    assert_eq!(Emission::ControllerPose(Side::Left).output_id(), "pose_left");
    assert_eq!(STATUS, "status");
}

#[test]
fn only_the_receive_times_go_without_a_timestamp() {
    assert!(!Emission::ReceiveTimes.carries_timestamp());
    assert!(Emission::ReferencePose.carries_timestamp());
    assert!(Emission::Button(Button::A, true).carries_timestamp());
    assert!(Emission::Scalar(Scalar::TriggerLeft).carries_timestamp());
}

#[test]
fn only_the_tick_input_drives_the_node() {
    assert!(is_tick_input("tick"));
    assert!(!is_tick_input("tock"));
    assert!(!is_tick_input("ticks"));
    assert!(!is_tick_input(""));
    assert!(!is_tick_input("Tick"));
}

const NO_TRUNCATIONS: Truncations = Truncations { overall: 0, right: 0, left: 0 };

fn read(json: &str) -> PacketFields {
    let msg = QuestMessage::parse(json.as_bytes()).expect("valid JSON object");
    PacketFields::read(&msg, NO_TRUNCATIONS)
}

#[test]
fn packet_fields_read_poses_numbers_buttons_and_codes_from_the_message() {
    let p = read(
        r#"{"rc": {"x":0.1,"y":0.2,"z":0.3,"qx":0,"qy":0,"qz":0,"qw":1}, "rt": 0.0,
            "lg": "x", "v": 1, "vr": null, "a": 1, "b": "", "x": [0], "y": 0.0}"#,
    );
    assert_eq!(
        p,
        PacketFields {
            overall_validity: Some(1),
            has_right_pose: true,
            trigger_right: true,
            button_a: Some(true),
            button_b: Some(false),
            button_x: Some(true),
            button_y: Some(false),
            ..no_fields()
        }
    );
}

#[test]
fn a_non_integral_validity_code_takes_the_given_truncation() {
    let msg = QuestMessage::parse(br#"{"v": 2.7, "vr": 1e30, "vl": "2"}"#).unwrap();
    let p = PacketFields::read(&msg, Truncations { overall: 2, right: i64::MAX, left: 9 });
    assert_eq!(p.overall_validity, Some(2));
    assert_eq!(p.right_validity, Some(i64::MAX));
    assert_eq!(p.left_validity, None);
}

#[test]
fn parsed_full_message_emits_all_outputs_in_order() {
    let mut tick = TickProcessor::new();
    let p = read(
        r#"{
            "rf": {"x":0,"y":0,"z":0,"qx":0,"qy":0,"qz":0,"qw":1},
            "rc": {"x":0.1,"y":0.2,"z":0.3,"qx":0,"qy":0,"qz":0,"qw":1},
            "lc": {"x":-0.1,"y":0.15,"z":0.25,"qx":0,"qy":0,"qz":0,"qw":1},
            "rt": 0.5, "lt": 0.5, "rg": 0.1, "lg": 0.2,
            "lsx": 0.3, "lsy": -0.3, "rsx": 0.4, "rsy": -0.4,
            "a": true, "b": false, "x": true, "y": false
        }"#,
    );
    let outcome = tick.process_tick(&[100], Some(&p));
    assert_eq!(ids(&outcome.emissions).len(), 16);
    assert_eq!(outcome.emissions[1], Emission::ControllerPose(Side::Right));
    assert_eq!(outcome.emissions[13], Emission::Button(Button::B, false));
    assert_eq!(outcome.emissions[15], Emission::Button(Button::Y, false));
}

#[test]
fn parsed_packets_gate_poses_on_validity_and_triggers() {
    let mut tick = TickProcessor::new();
    let no_trigger = read(r#"{"rc": {"x":0.1,"y":0.2,"z":0.3,"qx":0,"qy":0,"qz":0,"qw":1}}"#);
    let outcome = tick.process_tick(&[], Some(&no_trigger));
    assert!(!ids(&outcome.emissions).contains(&"pose_right"));

    let first = read(r#"{"rc": {"x":1,"y":0,"z":0,"qx":0,"qy":0,"qz":0,"qw":1}, "rt": 0.0}"#);
    assert!(tick.process_tick(&[], Some(&first)).emissions.contains(&Emission::ControllerPose(Side::Right)));
    let invalid =
        read(r#"{"rc": {"x":5,"y":5,"z":5,"qx":0,"qy":0,"qz":0,"qw":1}, "rt": 0.0, "vr": 2}"#);
    let outcome = tick.process_tick(&[], Some(&invalid));
    assert!(!outcome.emissions.contains(&Emission::ControllerPose(Side::Right)));
    assert_eq!(outcome.right_filter, FilterStep::Reset);
    assert!(ids(&outcome.emissions).contains(&"trigger_right"));
    let recovered = read(r#"{"rc": {"x":2,"y":0,"z":0,"qx":0,"qy":0,"qz":0,"qw":1}, "rt": 0.0}"#);
    let outcome = tick.process_tick(&[], Some(&recovered));
    assert!(outcome.emissions.contains(&Emission::ControllerPose(Side::Right)));
    assert_eq!(outcome.right_filter, FilterStep::Smooth);
}

#[test]
fn parsed_validity_changes_are_reported_once() {
    let mut tick = TickProcessor::new();
    assert!(tick.process_tick(&[], Some(&read(r#"{"v": 0}"#))).validity_transition.is_none());
    assert_eq!(
        tick.process_tick(&[], Some(&read(r#"{"v": 1}"#))).validity_transition.as_deref(),
        Some("[receiver] validity: OK -> STALE (L=OK, R=OK)")
    );
    assert!(tick.process_tick(&[], Some(&read(r#"{"v": 1}"#))).validity_transition.is_none());
}

#[test]
fn defaults_are_the_fresh_values() {
    let mut fresh = TickProcessor::default();
    let ok = PacketFields { overall_validity: Some(0), ..no_fields() };
    assert!(fresh.process_tick(&[], Some(&ok)).validity_transition.is_none());
    let outcome = TickOutcome::default();
    assert!(outcome.emissions.is_empty());
    assert!(outcome.validity_transition.is_none());
    assert_eq!(outcome.right_filter, FilterStep::Hold);
    assert_eq!(outcome, TickOutcome::default());
}
