//! Per-tick decisions of the node.
//!
//! On every `tick` input the node drains the receive timestamps, looks at
//! the freshest Quest packet and decides which outputs to send, in a fixed
//! order, and what to do with each of its three pose filters (right
//! controller, left controller, reference). [`TickProcessor`] keeps the
//! validity codes of the previous tick, which decide when a filter is reset
//! and when a validity change is reported.
//!
//! The pose arithmetic itself (frame conversion, One Euro filtering, the
//! gripper angle) is floating point and is carried out by the caller; this
//! module hands it a [`TickOutcome`] that says exactly what to compute and
//! send.

use vstd::prelude::*;

use crate::message::{
    holds_number, holds_pose, integer_of, shape_of, truth_of_field, truthy, JsonValue,
    QuestMessage,
};
use crate::text::{decimal_string, decimal_text};
use crate::transform::Side;

verus! {

/// Quest validity code: the pose is tracked.
pub const VALID_OK: i64 = 0;

/// Quest validity code: the pose is stale.
pub const VALID_STALE: i64 = 1;

/// Quest validity code: the pose must not be used.
pub const VALID_INVALID: i64 = 2;

/// The output announcing readiness, sent once before the first tick.
pub const STATUS: &'static str = "status";

/// The packet key of the overall validity code.
pub const OVERALL_VALIDITY_KEY: &'static str = "v";

/// The packet key of the right controller's validity code.
pub const RIGHT_VALIDITY_KEY: &'static str = "vr";

/// The packet key of the left controller's validity code.
pub const LEFT_VALIDITY_KEY: &'static str = "vl";

/// The packet key of the reference pose.
pub const REFERENCE_POSE_KEY: &'static str = "rf";

/// The packet key of the right controller's pose.
pub const RIGHT_POSE_KEY: &'static str = "rc";

/// The packet key of the left controller's pose.
pub const LEFT_POSE_KEY: &'static str = "lc";

/// A numeric packet field that is forwarded as a one-element `float32`
/// output whenever the packet carries it.
#[derive(Debug, Clone, Copy, PartialEq, Eq, Structural)]
pub enum Scalar {
    /// `rt`, sent as `trigger_right`.
    TriggerRight,
    /// `lt`, sent as `trigger_left`.
    TriggerLeft,
    /// `rg`, sent as `grip_right`.
    GripRight,
    /// `lg`, sent as `grip_left`.
    GripLeft,
    /// `lsx`, sent as `joystick_x_left`.
    JoystickXLeft,
    /// `lsy`, sent as `joystick_y_left`.
    JoystickYLeft,
    /// `rsx`, sent as `joystick_x_right`.
    JoystickXRight,
    /// `rsy`, sent as `joystick_y_right`.
    JoystickYRight,
}

/// A button field that is forwarded as a one-element boolean output
/// whenever the packet carries it.
#[derive(Debug, Clone, Copy, PartialEq, Eq, Structural)]
pub enum Button {
    /// `a`, sent as `button_a`.
    A,
    /// `b`, sent as `button_b`.
    B,
    /// `x`, sent as `button_x`.
    X,
    /// `y`, sent as `button_y`.
    Y,
}

/// One output to send this tick.
#[derive(Debug, Clone, Copy, PartialEq, Eq, Structural)]
pub enum Emission {
    /// `vr_receive_times`: the drained arrival timestamps.
    ReceiveTimes,
    /// `pose_right` / `pose_left`: the filtered controller pose of that
    /// side followed by the gripper angle of that side's trigger.
    ControllerPose(Side),
    /// `pose_reference`: the filtered reference pose.
    ReferencePose,
    /// A numeric field, forwarded as is.
    Scalar(Scalar),
    /// A button field, with its truth value.
    Button(Button, bool),
}

/// What happens to one pose filter this tick.
#[derive(Debug, Clone, Copy, PartialEq, Eq, Structural)]
pub enum FilterStep {
    /// The pose just became INVALID: clear the filter's state.
    Reset,
    /// The pose stays INVALID: leave the filter untouched.
    Hold,
    /// The pose is usable: feed the filter this tick's pose (if the packet
    /// has one; with no pose the filter is left as it is).
    Smooth,
}

/// The validity codes the decisions depend on.
#[derive(Debug, Clone, Copy, PartialEq, Eq, Structural)]
pub struct ValidityCodes {
    /// Overall validity (`v`).
    pub overall: i64,
    /// Right controller validity (`vr`).
    pub right: i64,
    /// Left controller validity (`vl`).
    pub left: i64,
}

/// What a Quest packet carries, as far as the decisions read it.
#[derive(Debug, Clone, Copy, PartialEq, Eq, Structural)]
pub struct PacketFields {
    /// `v`, read as an integer, when present.
    pub overall_validity: Option<i64>,
    /// `vr`, read as an integer, when present.
    pub right_validity: Option<i64>,
    /// `vl`, read as an integer, when present.
    pub left_validity: Option<i64>,
    /// `rf` holds a complete pose.
    pub has_reference_pose: bool,
    /// `rc` holds a complete pose.
    pub has_right_pose: bool,
    /// `lc` holds a complete pose.
    pub has_left_pose: bool,
    /// `rt` holds a number.
    pub trigger_right: bool,
    /// `lt` holds a number.
    pub trigger_left: bool,
    /// `rg` holds a number.
    pub grip_right: bool,
    /// `lg` holds a number.
    pub grip_left: bool,
    /// `lsx` holds a number.
    pub joystick_x_left: bool,
    /// `lsy` holds a number.
    pub joystick_y_left: bool,
    /// `rsx` holds a number.
    pub joystick_x_right: bool,
    /// `rsy` holds a number.
    pub joystick_y_right: bool,
    /// The truthiness of `a`, when present.
    pub button_a: Option<bool>,
    /// The truthiness of `b`, when present.
    pub button_b: Option<bool>,
    /// The truthiness of `x`, when present.
    pub button_x: Option<bool>,
    /// The truthiness of `y`, when present.
    pub button_y: Option<bool>,
}

/// The validity codes of a packet's numbers that are not integral `i64`s
/// (a fraction, an exponent, or too large), truncated toward zero by the
/// caller, since that goes through the number's floating-point value. Each
/// is read only when its key holds such a number.
#[derive(Debug, Clone, Copy, PartialEq, Eq)]
pub struct Truncations {
    /// `v`, truncated.
    pub overall: i64,
    /// `vr`, truncated.
    pub right: i64,
    /// `vl`, truncated.
    pub left: i64,
}

/// A validity field as an integer: `None` unless the key holds a number;
/// the number itself when it is an integral `i64`, `truncated` otherwise.
pub open spec fn validity_of_field(
    fields: Map<Seq<char>, JsonValue>,
    key: Seq<char>,
    truncated: i64,
) -> Option<i64> {
    if holds_number(fields, key) {
        match integer_of(fields[key]) {
            Some(i) => Some(i),
            None => Some(truncated),
        }
    } else {
        None
    }
}

/// The decisions for one tick.
#[derive(Debug, Clone, PartialEq)]
pub struct TickOutcome {
    /// Outputs to send, in order.
    pub emissions: Vec<Emission>,
    /// The validity transition line, present only when the overall
    /// validity changed since the previous tick.
    pub validity_transition: Option<String>,
    /// What to do with the right controller's filter.
    pub right_filter: FilterStep,
    /// What to do with the left controller's filter.
    pub left_filter: FilterStep,
    /// What to do with the reference pose's filter.
    pub reference_filter: FilterStep,
}

/// The validity codes of the previous tick.
#[derive(Debug, Clone, Copy)]
pub struct TickProcessor {
    previous: ValidityCodes,
}

// ---------------------------------------------------------------------
// The model.
// ---------------------------------------------------------------------

/// A validity field's code, `VALID_OK` when the packet lacks it.
pub open spec fn code_or_ok(code: Option<i64>) -> i64 {
    match code {
        Some(c) => c,
        None => VALID_OK,
    }
}

/// The validity codes a packet carries, absent ones read as `VALID_OK`.
pub open spec fn packet_codes(p: PacketFields) -> ValidityCodes {
    ValidityCodes {
        overall: code_or_ok(p.overall_validity),
        right: code_or_ok(p.right_validity),
        left: code_or_ok(p.left_validity),
    }
}

/// What happens to a filter whose pose has validity `code` now and had
/// `previous` on the tick before: it is reset only on the step into
/// INVALID, left alone while INVALID lasts, and fed otherwise.
pub open spec fn filter_step(code: i64, previous: i64) -> FilterStep {
    if code == VALID_INVALID {
        if previous != VALID_INVALID {
            FilterStep::Reset
        } else {
            FilterStep::Hold
        }
    } else {
        FilterStep::Smooth
    }
}

/// The codes a tick leaves for the next one: the packet's, or the
/// previous ones when there is no packet.
pub open spec fn codes_after(previous: ValidityCodes, packet: Option<PacketFields>) -> ValidityCodes {
    match packet {
        Some(p) => packet_codes(p),
        None => previous,
    }
}

/// The steps of the right, left and reference filters on a tick; without a
/// packet every filter holds.
pub open spec fn filter_steps(previous: ValidityCodes, packet: Option<PacketFields>) -> (
    FilterStep,
    FilterStep,
    FilterStep,
) {
    match packet {
        Some(p) => {
            let c = packet_codes(p);
            (
                filter_step(c.right, previous.right),
                filter_step(c.left, previous.left),
                filter_step(c.overall, previous.overall),
            )
        },
        None => (FilterStep::Hold, FilterStep::Hold, FilterStep::Hold),
    }
}

/// Whether a tick reports a validity transition: only with a packet whose
/// overall code differs from the previous one.
pub open spec fn reports_transition(previous: ValidityCodes, packet: Option<PacketFields>) -> bool {
    match packet {
        Some(p) => packet_codes(p).overall != previous.overall,
        None => false,
    }
}

/// `e` alone when `cond` holds, nothing otherwise.
pub open spec fn when(cond: bool, e: Emission) -> Seq<Emission> {
    if cond {
        seq![e]
    } else {
        Seq::empty()
    }
}

/// The button output for a button field, when the packet carries it.
pub open spec fn button_output(field: Option<bool>, button: Button) -> Seq<Emission> {
    match field {
        Some(pressed) => seq![Emission::Button(button, pressed)],
        None => Seq::empty(),
    }
}

/// The outputs of one tick, in the order they are sent: the receive
/// times (when any were drained); then, when there is a packet, the right
/// and left controller poses (each when its validity is not INVALID, the
/// packet holds the pose and the matching trigger), the reference pose
/// (when the overall validity is not INVALID and the packet holds it),
/// every numeric field the packet carries, and every button it carries.
pub open spec fn planned_emissions(has_times: bool, packet: Option<PacketFields>) -> Seq<Emission> {
    match packet {
        None => when(has_times, Emission::ReceiveTimes),
        Some(p) => {
            let c = packet_codes(p);
            when(has_times, Emission::ReceiveTimes)
                + when(c.right != VALID_INVALID && p.has_right_pose && p.trigger_right, Emission::ControllerPose(Side::Right))
                + when(c.left != VALID_INVALID && p.has_left_pose && p.trigger_left, Emission::ControllerPose(Side::Left))
                + when(c.overall != VALID_INVALID && p.has_reference_pose, Emission::ReferencePose)
                + when(p.trigger_right, Emission::Scalar(Scalar::TriggerRight))
                + when(p.trigger_left, Emission::Scalar(Scalar::TriggerLeft))
                + when(p.grip_right, Emission::Scalar(Scalar::GripRight))
                + when(p.grip_left, Emission::Scalar(Scalar::GripLeft))
                + when(p.joystick_x_left, Emission::Scalar(Scalar::JoystickXLeft))
                + when(p.joystick_y_left, Emission::Scalar(Scalar::JoystickYLeft))
                + when(p.joystick_x_right, Emission::Scalar(Scalar::JoystickXRight))
                + when(p.joystick_y_right, Emission::Scalar(Scalar::JoystickYRight))
                + button_output(p.button_a, Button::A)
                + button_output(p.button_b, Button::B)
                + button_output(p.button_x, Button::X)
                + button_output(p.button_y, Button::Y)
        },
    }
}

/// The name a validity code is reported under.
pub open spec fn validity_label(code: i64) -> Seq<char> {
    if code == VALID_OK {
        "OK"@
    } else if code == VALID_STALE {
        "STALE"@
    } else if code == VALID_INVALID {
        "INVALID"@
    } else {
        decimal_text(code as int)
    }
}

/// The line reporting a change of overall validity from `previous` to
/// `current`, with the controllers' codes.
pub open spec fn transition_text(previous: i64, current: i64, left: i64, right: i64) -> Seq<char> {
    "[receiver] validity: "@ + validity_label(previous) + " -> "@ + validity_label(current)
        + " (L="@ + validity_label(left) + ", R="@ + validity_label(right) + ")"@
}

/// The position of an output in the sending order.
pub open spec fn output_rank(e: Emission) -> int {
    match e {
        Emission::ReceiveTimes => 0,
        Emission::ControllerPose(Side::Right) => 1,
        Emission::ControllerPose(Side::Left) => 2,
        Emission::ReferencePose => 3,
        Emission::Scalar(s) => match s {
            Scalar::TriggerRight => 4,
            Scalar::TriggerLeft => 5,
            Scalar::GripRight => 6,
            Scalar::GripLeft => 7,
            Scalar::JoystickXLeft => 8,
            Scalar::JoystickYLeft => 9,
            Scalar::JoystickXRight => 10,
            Scalar::JoystickYRight => 11,
        },
        Emission::Button(b, _) => match b {
            Button::A => 12,
            Button::B => 13,
            Button::X => 14,
            Button::Y => 15,
        },
    }
}

/// The outputs are in sending order, each at most once.
pub open spec fn in_output_order(s: Seq<Emission>) -> bool {
    forall|i: int, j: int| 0 <= i < j < s.len() ==> output_rank(s[i]) < output_rank(s[j])
}

/// The dora output id of an output.
pub open spec fn output_name(e: Emission) -> Seq<char> {
    match e {
        Emission::ReceiveTimes => "vr_receive_times"@,
        Emission::ControllerPose(Side::Right) => "pose_right"@,
        Emission::ControllerPose(Side::Left) => "pose_left"@,
        Emission::ReferencePose => "pose_reference"@,
        Emission::Scalar(s) => scalar_output_name(s),
        Emission::Button(b, _) => match b {
            Button::A => "button_a"@,
            Button::B => "button_b"@,
            Button::X => "button_x"@,
            Button::Y => "button_y"@,
        },
    }
}

/// The dora output id of a numeric field.
pub open spec fn scalar_output_name(s: Scalar) -> Seq<char> {
    match s {
        Scalar::TriggerRight => "trigger_right"@,
        Scalar::TriggerLeft => "trigger_left"@,
        Scalar::GripRight => "grip_right"@,
        Scalar::GripLeft => "grip_left"@,
        Scalar::JoystickXLeft => "joystick_x_left"@,
        Scalar::JoystickYLeft => "joystick_y_left"@,
        Scalar::JoystickXRight => "joystick_x_right"@,
        Scalar::JoystickYRight => "joystick_y_right"@,
    }
}

/// The packet key of a numeric field.
pub open spec fn scalar_key(s: Scalar) -> Seq<char> {
    match s {
        Scalar::TriggerRight => "rt"@,
        Scalar::TriggerLeft => "lt"@,
        Scalar::GripRight => "rg"@,
        Scalar::GripLeft => "lg"@,
        Scalar::JoystickXLeft => "lsx"@,
        Scalar::JoystickYLeft => "lsy"@,
        Scalar::JoystickXRight => "rsx"@,
        Scalar::JoystickYRight => "rsy"@,
    }
}

/// The packet key of a button field.
pub open spec fn button_key(b: Button) -> Seq<char> {
    match b {
        Button::A => "a"@,
        Button::B => "b"@,
        Button::X => "x"@,
        Button::Y => "y"@,
    }
}

// ---------------------------------------------------------------------
// Laws.
// ---------------------------------------------------------------------

/// The value a packet carries for a button field.
pub open spec fn button_field(p: PacketFields, b: Button) -> Option<bool> {
    match b {
        Button::A => p.button_a,
        Button::B => p.button_b,
        Button::X => p.button_x,
        Button::Y => p.button_y,
    }
}

/// Whether the packet carries a numeric field.
pub open spec fn scalar_present(p: PacketFields, s: Scalar) -> bool {
    match s {
        Scalar::TriggerRight => p.trigger_right,
        Scalar::TriggerLeft => p.trigger_left,
        Scalar::GripRight => p.grip_right,
        Scalar::GripLeft => p.grip_left,
        Scalar::JoystickXLeft => p.joystick_x_left,
        Scalar::JoystickYLeft => p.joystick_y_left,
        Scalar::JoystickXRight => p.joystick_x_right,
        Scalar::JoystickYRight => p.joystick_y_right,
    }
}

/// Whether a tick sends output `e`.
pub open spec fn is_sent(e: Emission, has_times: bool, packet: Option<PacketFields>) -> bool {
    match e {
        Emission::ReceiveTimes => has_times,
        _ => match packet {
            None => false,
            Some(p) => {
                let c = packet_codes(p);
                match e {
                    Emission::ControllerPose(Side::Right) => c.right != VALID_INVALID
                        && p.has_right_pose && p.trigger_right,
                    Emission::ControllerPose(Side::Left) => c.left != VALID_INVALID
                        && p.has_left_pose && p.trigger_left,
                    Emission::ReferencePose => c.overall != VALID_INVALID && p.has_reference_pose,
                    Emission::Scalar(s) => scalar_present(p, s),
                    Emission::Button(b, pressed) => button_field(p, b) == Some(pressed),
                    Emission::ReceiveTimes => false,
                }
            },
        },
    }
}

/// `s` is in sending order and every output in it comes before rank `k`.
#[verifier::opaque]
spec fn ordered_below(s: Seq<Emission>, k: int) -> bool {
    &&& in_output_order(s)
    &&& forall|i: int| 0 <= i < s.len() ==> output_rank(#[trigger] s[i]) < k
}

proof fn lemma_when_order(s: Seq<Emission>, c: bool, e: Emission, k: int)
    requires
        ordered_below(s, output_rank(e)),
        output_rank(e) < k,
    ensures
        ordered_below(s + when(c, e), k),
{
    reveal(ordered_below);
    let t = s + when(c, e);
    if c {
        assert(t[s.len() as int] == e);
    } else {
        assert(t =~= s);
    }
}

proof fn lemma_button_order(s: Seq<Emission>, field: Option<bool>, b: Button, k: int)
    requires
        ordered_below(s, output_rank(Emission::Button(b, true))),
        output_rank(Emission::Button(b, true)) < k,
    ensures
        ordered_below(s + button_output(field, b), k),
{
    match field {
        Some(v) => {
            assert(button_output(field, b) == when(true, Emission::Button(b, v)));
            lemma_when_order(s, true, Emission::Button(b, v), k);
        },
        None => {
            assert(s + button_output(field, b) =~= s);
            reveal(ordered_below);
        },
    }
}

proof fn lemma_when_member(s: Seq<Emission>, c: bool, e: Emission, x: Emission)
    ensures
        (s + when(c, e)).contains(x) <==> (s.contains(x) || (c && x == e)),
{
    let t = s + when(c, e);
    if c {
        assert(t[s.len() as int] == e);
        if s.contains(x) {
            let i = choose|i: int| 0 <= i < s.len() && s[i] == x;
            assert(t[i] == x);
        }
        if t.contains(x) {
            let i = choose|i: int| 0 <= i < t.len() && t[i] == x;
            if i < s.len() {
                assert(s[i] == x);
            }
        }
    } else {
        assert(t =~= s);
    }
}

proof fn lemma_button_member(s: Seq<Emission>, field: Option<bool>, b: Button, x: Emission)
    ensures
        (s + button_output(field, b)).contains(x) <==> (s.contains(x) || (field is Some && x
            == Emission::Button(b, field->0))),
{
    match field {
        Some(v) => {
            assert(button_output(field, b) == when(true, Emission::Button(b, v)));
            lemma_when_member(s, true, Emission::Button(b, v), x);
        },
        None => {
            assert(s + button_output(field, b) =~= s);
        },
    }
}

/// The outputs of a tick are in the fixed sending order, each at most
/// once: `vr_receive_times`, `pose_right`, `pose_left`, `pose_reference`,
/// `trigger_right`, `trigger_left`, `grip_right`, `grip_left`, the four
/// joystick axes, then `button_a`, `button_b`, `button_x`, `button_y`.
pub proof fn lemma_outputs_in_sending_order(has_times: bool, packet: Option<PacketFields>)
    ensures
        in_output_order(planned_emissions(has_times, packet)),
{
    let s0 = Seq::<Emission>::empty();
    assert(ordered_below(s0, 0)) by {
        reveal(ordered_below);
    }
    lemma_when_order(s0, has_times, Emission::ReceiveTimes, 1);
    let s1 = when(has_times, Emission::ReceiveTimes);
    assert(s0 + s1 =~= s1);
    match packet {
        None => {
            reveal(ordered_below);
        },
        Some(p) => {
            let c = packet_codes(p);
            let g1 = c.right != VALID_INVALID && p.has_right_pose && p.trigger_right;
            let g2 = c.left != VALID_INVALID && p.has_left_pose && p.trigger_left;
            let g3 = c.overall != VALID_INVALID && p.has_reference_pose;
            lemma_when_order(s1, g1, Emission::ControllerPose(Side::Right), 2);
            let s2 = s1 + when(g1, Emission::ControllerPose(Side::Right));
            lemma_when_order(s2, g2, Emission::ControllerPose(Side::Left), 3);
            let s3 = s2 + when(g2, Emission::ControllerPose(Side::Left));
            lemma_when_order(s3, g3, Emission::ReferencePose, 4);
            let s4 = s3 + when(g3, Emission::ReferencePose);
            lemma_when_order(s4, p.trigger_right, Emission::Scalar(Scalar::TriggerRight), 5);
            let s5 = s4 + when(p.trigger_right, Emission::Scalar(Scalar::TriggerRight));
            lemma_when_order(s5, p.trigger_left, Emission::Scalar(Scalar::TriggerLeft), 6);
            let s6 = s5 + when(p.trigger_left, Emission::Scalar(Scalar::TriggerLeft));
            lemma_when_order(s6, p.grip_right, Emission::Scalar(Scalar::GripRight), 7);
            let s7 = s6 + when(p.grip_right, Emission::Scalar(Scalar::GripRight));
            lemma_when_order(s7, p.grip_left, Emission::Scalar(Scalar::GripLeft), 8);
            let s8 = s7 + when(p.grip_left, Emission::Scalar(Scalar::GripLeft));
            lemma_when_order(s8, p.joystick_x_left, Emission::Scalar(Scalar::JoystickXLeft), 9);
            let s9 = s8 + when(p.joystick_x_left, Emission::Scalar(Scalar::JoystickXLeft));
            lemma_when_order(s9, p.joystick_y_left, Emission::Scalar(Scalar::JoystickYLeft), 10);
            let s10 = s9 + when(p.joystick_y_left, Emission::Scalar(Scalar::JoystickYLeft));
            lemma_when_order(s10, p.joystick_x_right, Emission::Scalar(Scalar::JoystickXRight), 11);
            let s11 = s10 + when(p.joystick_x_right, Emission::Scalar(Scalar::JoystickXRight));
            lemma_when_order(s11, p.joystick_y_right, Emission::Scalar(Scalar::JoystickYRight), 12);
            let s12 = s11 + when(p.joystick_y_right, Emission::Scalar(Scalar::JoystickYRight));
            lemma_button_order(s12, p.button_a, Button::A, 13);
            let s13 = s12 + button_output(p.button_a, Button::A);
            lemma_button_order(s13, p.button_b, Button::B, 14);
            let s14 = s13 + button_output(p.button_b, Button::B);
            lemma_button_order(s14, p.button_x, Button::X, 15);
            let s15 = s14 + button_output(p.button_x, Button::X);
            lemma_button_order(s15, p.button_y, Button::Y, 16);
            assert(planned_emissions(has_times, packet) == s15 + button_output(p.button_y, Button::Y));
            reveal(ordered_below);
        },
    }
}

/// A tick sends an output exactly when its condition holds: the
/// receive times when any were drained; a controller pose when its
/// validity (absent: OK) is not INVALID and the packet holds both the pose
/// and that side's trigger; the reference pose when the overall validity
/// is not INVALID and the packet holds it; each numeric field and each
/// button whenever the packet carries it, whatever the validity.
pub proof fn lemma_outputs_sent_exactly_when_due(has_times: bool, packet: Option<PacketFields>, e: Emission)
    ensures
        planned_emissions(has_times, packet).contains(e) <==> is_sent(e, has_times, packet),
{
    let s0 = Seq::<Emission>::empty();
    lemma_when_member(s0, has_times, Emission::ReceiveTimes, e);
    let s1 = when(has_times, Emission::ReceiveTimes);
    assert(s0 + s1 =~= s1);
    match packet {
        None => {},
        Some(p) => {
            let c = packet_codes(p);
            let g1 = c.right != VALID_INVALID && p.has_right_pose && p.trigger_right;
            let g2 = c.left != VALID_INVALID && p.has_left_pose && p.trigger_left;
            let g3 = c.overall != VALID_INVALID && p.has_reference_pose;
            lemma_when_member(s1, g1, Emission::ControllerPose(Side::Right), e);
            let s2 = s1 + when(g1, Emission::ControllerPose(Side::Right));
            lemma_when_member(s2, g2, Emission::ControllerPose(Side::Left), e);
            let s3 = s2 + when(g2, Emission::ControllerPose(Side::Left));
            lemma_when_member(s3, g3, Emission::ReferencePose, e);
            let s4 = s3 + when(g3, Emission::ReferencePose);
            lemma_when_member(s4, p.trigger_right, Emission::Scalar(Scalar::TriggerRight), e);
            let s5 = s4 + when(p.trigger_right, Emission::Scalar(Scalar::TriggerRight));
            lemma_when_member(s5, p.trigger_left, Emission::Scalar(Scalar::TriggerLeft), e);
            let s6 = s5 + when(p.trigger_left, Emission::Scalar(Scalar::TriggerLeft));
            lemma_when_member(s6, p.grip_right, Emission::Scalar(Scalar::GripRight), e);
            let s7 = s6 + when(p.grip_right, Emission::Scalar(Scalar::GripRight));
            lemma_when_member(s7, p.grip_left, Emission::Scalar(Scalar::GripLeft), e);
            let s8 = s7 + when(p.grip_left, Emission::Scalar(Scalar::GripLeft));
            lemma_when_member(s8, p.joystick_x_left, Emission::Scalar(Scalar::JoystickXLeft), e);
            let s9 = s8 + when(p.joystick_x_left, Emission::Scalar(Scalar::JoystickXLeft));
            lemma_when_member(s9, p.joystick_y_left, Emission::Scalar(Scalar::JoystickYLeft), e);
            let s10 = s9 + when(p.joystick_y_left, Emission::Scalar(Scalar::JoystickYLeft));
            lemma_when_member(s10, p.joystick_x_right, Emission::Scalar(Scalar::JoystickXRight), e);
            let s11 = s10 + when(p.joystick_x_right, Emission::Scalar(Scalar::JoystickXRight));
            lemma_when_member(s11, p.joystick_y_right, Emission::Scalar(Scalar::JoystickYRight), e);
            let s12 = s11 + when(p.joystick_y_right, Emission::Scalar(Scalar::JoystickYRight));
            lemma_button_member(s12, p.button_a, Button::A, e);
            let s13 = s12 + button_output(p.button_a, Button::A);
            lemma_button_member(s13, p.button_b, Button::B, e);
            let s14 = s13 + button_output(p.button_b, Button::B);
            lemma_button_member(s14, p.button_x, Button::X, e);
            let s15 = s14 + button_output(p.button_x, Button::X);
            lemma_button_member(s15, p.button_y, Button::Y, e);
            assert(planned_emissions(has_times, packet) == s15 + button_output(p.button_y, Button::Y));
        },
    }
}

/// For a packet read from a message (as [`PacketFields::read`] reads it),
/// each numeric field is sent exactly when its key holds a number, and each
/// button exactly when its key is present, carrying the value's
/// truthiness; neither depends on the validity codes.
pub proof fn lemma_fields_sent_as_the_message_holds_them(
    fields: Map<Seq<char>, JsonValue>,
    p: PacketFields,
    has_times: bool,
    s: Scalar,
    b: Button,
    pressed: bool,
)
    requires
        forall|s: Scalar| scalar_present(p, s) == holds_number(fields, #[trigger] scalar_key(s)),
        forall|b: Button| button_field(p, b) == truth_of_field(fields, #[trigger] button_key(b)),
    ensures
        planned_emissions(has_times, Some(p)).contains(Emission::Scalar(s)) <==> holds_number(
            fields,
            scalar_key(s),
        ),
        planned_emissions(has_times, Some(p)).contains(Emission::Button(b, pressed)) <==> (
        fields.dom().contains(button_key(b)) && truthy(shape_of(fields[button_key(b)]))
            == pressed),
        (exists|v: bool| #[trigger] planned_emissions(has_times, Some(p)).contains(Emission::Button(b, v)))
            <==> fields.dom().contains(button_key(b)),
{
    lemma_outputs_sent_exactly_when_due(has_times, Some(p), Emission::Scalar(s));
    lemma_outputs_sent_exactly_when_due(has_times, Some(p), Emission::Button(b, pressed));
    assert(scalar_present(p, s) == holds_number(fields, scalar_key(s)));
    assert(button_field(p, b) == truth_of_field(fields, button_key(b)));
    if fields.dom().contains(button_key(b)) {
        let v = truthy(shape_of(fields[button_key(b)]));
        lemma_outputs_sent_exactly_when_due(has_times, Some(p), Emission::Button(b, v));
    }
    assert forall|v: bool|
        #[trigger] planned_emissions(has_times, Some(p)).contains(Emission::Button(b, v))
            implies fields.dom().contains(button_key(b)) by {
        lemma_outputs_sent_exactly_when_due(has_times, Some(p), Emission::Button(b, v));
    }
}

/// A pose filter is reset once when its validity turns INVALID and not
/// again while it stays INVALID, and it is fed again as soon as the pose
/// is usable. `first` and `second` are two consecutive packets (ticks
/// without a packet in between change nothing, see
/// [`lemma_tick_without_packet_changes_nothing`]).
pub proof fn lemma_reset_once_per_invalid_stretch(
    previous: ValidityCodes,
    first: PacketFields,
    second: PacketFields,
)
    ensures
        ({
            let c1 = packet_codes(first);
            let c2 = packet_codes(second);
            let s1 = filter_steps(previous, Some(first));
            let s2 = filter_steps(codes_after(previous, Some(first)), Some(second));
            &&& (s1.0 == FilterStep::Reset <==> c1.right == VALID_INVALID && previous.right
                != VALID_INVALID)
            &&& (s1.1 == FilterStep::Reset <==> c1.left == VALID_INVALID && previous.left
                != VALID_INVALID)
            &&& (s1.2 == FilterStep::Reset <==> c1.overall == VALID_INVALID && previous.overall
                != VALID_INVALID)
            &&& (c1.right == VALID_INVALID && c2.right == VALID_INVALID ==> s2.0 == FilterStep::Hold)
            &&& (c1.left == VALID_INVALID && c2.left == VALID_INVALID ==> s2.1 == FilterStep::Hold)
            &&& (c1.overall == VALID_INVALID && c2.overall == VALID_INVALID ==> s2.2
                == FilterStep::Hold)
            &&& (c2.right != VALID_INVALID ==> s2.0 == FilterStep::Smooth)
            &&& (c2.left != VALID_INVALID ==> s2.1 == FilterStep::Smooth)
            &&& (c2.overall != VALID_INVALID ==> s2.2 == FilterStep::Smooth)
        }),
{
}

/// A validity transition is reported once: the tick after a packet
/// compares against that packet's overall code, so the same packet seen
/// again reports nothing and resets no filter.
pub proof fn lemma_repeated_packet_is_quiet(previous: ValidityCodes, p: PacketFields)
    ensures
        !reports_transition(codes_after(previous, Some(p)), Some(p)),
        filter_steps(codes_after(previous, Some(p)), Some(p)).0 != FilterStep::Reset,
        filter_steps(codes_after(previous, Some(p)), Some(p)).1 != FilterStep::Reset,
        filter_steps(codes_after(previous, Some(p)), Some(p)).2 != FilterStep::Reset,
        codes_after(codes_after(previous, Some(p)), Some(p)) == codes_after(previous, Some(p)),
{
}

/// The codes a tick with a packet remembers are the packet's own fields
/// (an absent field counting as 0, OK), whatever was remembered before; so
/// every step of a pose into INVALID resets its filter, however many
/// INVALID stretches came before: a packet whose code is not 2 followed by
/// one whose code is 2 resets that filter.
pub proof fn lemma_every_step_into_invalid_resets(
    previous: ValidityCodes,
    first: PacketFields,
    second: PacketFields,
)
    ensures
        codes_after(previous, Some(first)).right == (match first.right_validity {
            Some(c) => c,
            None => 0,
        }),
        codes_after(previous, Some(first)).left == (match first.left_validity {
            Some(c) => c,
            None => 0,
        }),
        codes_after(previous, Some(first)).overall == (match first.overall_validity {
            Some(c) => c,
            None => 0,
        }),
        first.right_validity != Some(2i64) && second.right_validity == Some(2i64) ==> filter_steps(
            codes_after(previous, Some(first)),
            Some(second),
        ).0 == FilterStep::Reset,
        first.left_validity != Some(2i64) && second.left_validity == Some(2i64) ==> filter_steps(
            codes_after(previous, Some(first)),
            Some(second),
        ).1 == FilterStep::Reset,
        first.overall_validity != Some(2i64) && second.overall_validity == Some(2i64)
            ==> filter_steps(codes_after(previous, Some(first)), Some(second)).2
            == FilterStep::Reset,
{
}

/// Each button is read from the packet key that its output id names: the
/// output `button_<k>` carries the field `<k>`.
pub proof fn lemma_button_keys_match_their_outputs(b: Button, pressed: bool)
    ensures
        output_name(Emission::Button(b, pressed)) == "button_"@ + button_key(b),
{
    reveal_strlit("button_");
    reveal_strlit("a");
    reveal_strlit("b");
    reveal_strlit("x");
    reveal_strlit("y");
    reveal_strlit("button_a");
    reveal_strlit("button_b");
    reveal_strlit("button_x");
    reveal_strlit("button_y");
    match b {
        Button::A => assert("button_a"@ =~= "button_"@ + "a"@),
        Button::B => assert("button_b"@ =~= "button_"@ + "b"@),
        Button::X => assert("button_x"@ =~= "button_"@ + "x"@),
        Button::Y => assert("button_y"@ =~= "button_"@ + "y"@),
    }
}

/// The side a numeric output name ends with: `l` for `..._left`, `r` for
/// `..._right`.
pub open spec fn side_letter(name: Seq<char>) -> char {
    if name.len() >= 4 && name.subrange(name.len() - 4, name.len() as int) == "left"@ {
        'l'
    } else {
        'r'
    }
}

/// Each numeric field is read from the packet key that its output id
/// names: `trigger_<side>` and `grip_<side>` from the side's letter and the
/// kind's initial (`rt`, `lt`, `rg`, `lg`), `joystick_<axis>_<side>` from
/// the side's letter, `s` and the axis (`lsx`, `lsy`, `rsx`, `rsy`).
pub proof fn lemma_scalar_keys_match_their_outputs(s: Scalar)
    ensures
        ({
            let name = scalar_output_name(s);
            let key = scalar_key(s);
            &&& key[0] == side_letter(name)
            &&& name[0] == 'j' ==> key.len() == 3 && key[1] == 's' && key[2] == name[9]
            &&& name[0] != 'j' ==> key.len() == 2 && key[1] == name[0]
        }),
{
    reveal_strlit("left");
    match s {
        Scalar::TriggerRight => {
            reveal_strlit("trigger_right");
            reveal_strlit("rt");
            assert("trigger_right"@.subrange(9, 13)[0] != "left"@[0]);
        },
        Scalar::TriggerLeft => {
            reveal_strlit("trigger_left");
            reveal_strlit("lt");
            assert("trigger_left"@.subrange(8, 12) =~= "left"@);
        },
        Scalar::GripRight => {
            reveal_strlit("grip_right");
            reveal_strlit("rg");
            assert("grip_right"@.subrange(6, 10)[0] != "left"@[0]);
        },
        Scalar::GripLeft => {
            reveal_strlit("grip_left");
            reveal_strlit("lg");
            assert("grip_left"@.subrange(5, 9) =~= "left"@);
        },
        Scalar::JoystickXLeft => {
            reveal_strlit("joystick_x_left");
            reveal_strlit("lsx");
            assert("joystick_x_left"@.subrange(11, 15) =~= "left"@);
        },
        Scalar::JoystickYLeft => {
            reveal_strlit("joystick_y_left");
            reveal_strlit("lsy");
            assert("joystick_y_left"@.subrange(11, 15) =~= "left"@);
        },
        Scalar::JoystickXRight => {
            reveal_strlit("joystick_x_right");
            reveal_strlit("rsx");
            assert("joystick_x_right"@.subrange(12, 16)[0] != "left"@[0]);
        },
        Scalar::JoystickYRight => {
            reveal_strlit("joystick_y_right");
            reveal_strlit("rsy");
            assert("joystick_y_right"@.subrange(12, 16)[0] != "left"@[0]);
        },
    }
}

/// A tick with no packet leaves the remembered codes as they are, touches
/// no filter and reports nothing; it sends the receive times only.
pub proof fn lemma_tick_without_packet_changes_nothing(previous: ValidityCodes, has_times: bool)
    ensures
        codes_after(previous, None) == previous,
        filter_steps(previous, None) == (FilterStep::Hold, FilterStep::Hold, FilterStep::Hold),
        !reports_transition(previous, None),
        planned_emissions(has_times, None) == (if has_times {
            seq![Emission::ReceiveTimes]
        } else {
            Seq::<Emission>::empty()
        }),
{
}

// ---------------------------------------------------------------------
// Names and keys.
// ---------------------------------------------------------------------

impl Scalar {
    /// The packet key this field is read from.
    pub fn key(&self) -> (k: &'static str)
        ensures
            k@ == scalar_key(*self),
    {
        match self {
            Scalar::TriggerRight => "rt",
            Scalar::TriggerLeft => "lt",
            Scalar::GripRight => "rg",
            Scalar::GripLeft => "lg",
            Scalar::JoystickXLeft => "lsx",
            Scalar::JoystickYLeft => "lsy",
            Scalar::JoystickXRight => "rsx",
            Scalar::JoystickYRight => "rsy",
        }
    }
}

impl Button {
    /// The packet key this button is read from.
    pub fn key(&self) -> (k: &'static str)
        ensures
            k@ == button_key(*self),
    {
        match self {
            Button::A => "a",
            Button::B => "b",
            Button::X => "x",
            Button::Y => "y",
        }
    }
}

fn validity_reading(msg: &QuestMessage, key: &str, truncated: i64) -> (code: Option<i64>)
    ensures
        code == validity_of_field(msg@, key@, truncated),
{
    match msg.get_integer(key) {
        Some(i) => Some(i),
        None => if msg.has_number(key) {
            Some(truncated)
        } else {
            None
        },
    }
}

impl PacketFields {
    /// What the decisions read of `msg`: which poses are complete, which
    /// numeric fields hold numbers, the buttons' truthiness (absent keys:
    /// `None`), and the validity codes (absent or non-numeric: `None`;
    /// integral: as they are; other numbers: from `truncated`).
    pub fn read(msg: &QuestMessage, truncated: Truncations) -> (p: PacketFields)
        ensures
            p.has_reference_pose == holds_pose(msg@, "rf"@),
            p.has_right_pose == holds_pose(msg@, "rc"@),
            p.has_left_pose == holds_pose(msg@, "lc"@),
            forall|s: Scalar| scalar_present(p, s) == holds_number(msg@, #[trigger] scalar_key(s)),
            forall|b: Button| button_field(p, b) == truth_of_field(msg@, #[trigger] button_key(b)),
            p.overall_validity == validity_of_field(msg@, "v"@, truncated.overall),
            p.right_validity == validity_of_field(msg@, "vr"@, truncated.right),
            p.left_validity == validity_of_field(msg@, "vl"@, truncated.left),
    {
        let p = PacketFields {
            overall_validity: validity_reading(msg, OVERALL_VALIDITY_KEY, truncated.overall),
            right_validity: validity_reading(msg, RIGHT_VALIDITY_KEY, truncated.right),
            left_validity: validity_reading(msg, LEFT_VALIDITY_KEY, truncated.left),
            has_reference_pose: msg.has_pose(REFERENCE_POSE_KEY),
            has_right_pose: msg.has_pose(RIGHT_POSE_KEY),
            has_left_pose: msg.has_pose(LEFT_POSE_KEY),
            trigger_right: msg.has_number(Scalar::TriggerRight.key()),
            trigger_left: msg.has_number(Scalar::TriggerLeft.key()),
            grip_right: msg.has_number(Scalar::GripRight.key()),
            grip_left: msg.has_number(Scalar::GripLeft.key()),
            joystick_x_left: msg.has_number(Scalar::JoystickXLeft.key()),
            joystick_y_left: msg.has_number(Scalar::JoystickYLeft.key()),
            joystick_x_right: msg.has_number(Scalar::JoystickXRight.key()),
            joystick_y_right: msg.has_number(Scalar::JoystickYRight.key()),
            button_a: msg.get_bool(Button::A.key()),
            button_b: msg.get_bool(Button::B.key()),
            button_x: msg.get_bool(Button::X.key()),
            button_y: msg.get_bool(Button::Y.key()),
        };
        assert forall|b: Button| button_field(p, b) == truth_of_field(
            msg@,
            #[trigger] button_key(b),
        ) by {
            match b {
                Button::A => {},
                Button::B => {},
                Button::X => {},
                Button::Y => {},
            }
        }
        assert forall|s: Scalar| scalar_present(p, s) == holds_number(
            msg@,
            #[trigger] scalar_key(s),
        ) by {
            match s {
                Scalar::TriggerRight => {},
                Scalar::TriggerLeft => {},
                Scalar::GripRight => {},
                Scalar::GripLeft => {},
                Scalar::JoystickXLeft => {},
                Scalar::JoystickYLeft => {},
                Scalar::JoystickXRight => {},
                Scalar::JoystickYRight => {},
            }
        }
        p
    }
}

impl Emission {
    /// The dora output id this output is sent under.
    pub fn output_id(&self) -> (id: &'static str)
        ensures
            id@ == output_name(*self),
    {
        match self {
            Emission::ReceiveTimes => "vr_receive_times",
            Emission::ControllerPose(Side::Right) => "pose_right",
            Emission::ControllerPose(Side::Left) => "pose_left",
            Emission::ReferencePose => "pose_reference",
            Emission::Scalar(s) => match s {
                Scalar::TriggerRight => "trigger_right",
                Scalar::TriggerLeft => "trigger_left",
                Scalar::GripRight => "grip_right",
                Scalar::GripLeft => "grip_left",
                Scalar::JoystickXLeft => "joystick_x_left",
                Scalar::JoystickYLeft => "joystick_y_left",
                Scalar::JoystickXRight => "joystick_x_right",
                Scalar::JoystickYRight => "joystick_y_right",
            },
            Emission::Button(b, _) => match b {
                Button::A => "button_a",
                Button::B => "button_b",
                Button::X => "button_x",
                Button::Y => "button_y",
            },
        }
    }
}

impl Emission {
    /// Whether the output is sent with a `timestamp` metadata entry: every
    /// output of a tick does, except `vr_receive_times`.
    pub fn carries_timestamp(&self) -> (stamped: bool)
        ensures
            stamped == !(*self is ReceiveTimes),
    {
        match self {
            Emission::ReceiveTimes => false,
            _ => true,
        }
    }
}

/// Whether a dora input is the `tick` that drives the node; every other
/// input (and every other event) is ignored.
pub fn is_tick_input(id: &str) -> (tick: bool)
    ensures
        tick == (id@ == "tick"@),
{
    proof {
        reveal_strlit("tick");
    }
    let n = id.unicode_len();
    if n != 4 {
        return false;
    }
    let tick = id.get_char(0) == 't' && id.get_char(1) == 'i' && id.get_char(2) == 'c'
        && id.get_char(3) == 'k';
    proof {
        if tick {
            assert(id@ =~= "tick"@);
        }
    }
    tick
}

/// The name a validity code is reported under: `OK`, `STALE`, `INVALID`,
/// or the code itself in decimal.
pub fn validity_name(code: i64) -> (name: String)
    ensures
        name@ == validity_label(code),
{
    if code == VALID_OK {
        String::from_str("OK")
    } else if code == VALID_STALE {
        String::from_str("STALE")
    } else if code == VALID_INVALID {
        String::from_str("INVALID")
    } else {
        decimal_string(code)
    }
}

fn transition_line(previous: i64, current: i64, left: i64, right: i64) -> (line: String)
    ensures
        line@ == transition_text(previous, current, left, right),
{
    let mut line = String::from_str("[receiver] validity: ");
    line.append(validity_name(previous).as_str());
    line.append(" -> ");
    line.append(validity_name(current).as_str());
    line.append(" (L=");
    line.append(validity_name(left).as_str());
    line.append(", R=");
    line.append(validity_name(right).as_str());
    line.append(")");
    line
}

fn push_when(out: &mut Vec<Emission>, cond: bool, e: Emission)
    ensures
        final(out)@ == old(out)@ + when(cond, e),
{
    if cond {
        out.push(e);
    }
    proof {
        if !cond {
            assert(old(out)@ + when(cond, e) =~= old(out)@);
        }
    }
}

fn push_button(out: &mut Vec<Emission>, field: Option<bool>, button: Button)
    ensures
        final(out)@ == old(out)@ + button_output(field, button),
{
    match field {
        Some(pressed) => out.push(Emission::Button(button, pressed)),
        None => {
            assert(old(out)@ + button_output(field, button) =~= old(out)@);
        },
    }
}

fn step_for(code: i64, previous: i64) -> (step: FilterStep)
    ensures
        step == filter_step(code, previous),
{
    if code == VALID_INVALID {
        if previous != VALID_INVALID {
            FilterStep::Reset
        } else {
            FilterStep::Hold
        }
    } else {
        FilterStep::Smooth
    }
}

fn code_of(field: Option<i64>) -> (code: i64)
    ensures
        code == code_or_ok(field),
{
    match field {
        Some(c) => c,
        None => VALID_OK,
    }
}

impl View for TickProcessor {
    type V = ValidityCodes;

    closed spec fn view(&self) -> ValidityCodes {
        self.previous
    }
}

impl Default for TickProcessor {
    /// The processor of [`TickProcessor::new`]: every previous code OK.
    fn default() -> (p: Self)
        ensures
            p@ == (ValidityCodes { overall: VALID_OK, right: VALID_OK, left: VALID_OK }),
    {
        TickProcessor::new()
    }
}

impl Default for TickOutcome {
    /// No output, no transition line, and every filter left alone.
    fn default() -> (o: Self)
        ensures
            o.emissions@ == Seq::<Emission>::empty(),
            o.validity_transition is None,
            o.right_filter == FilterStep::Hold,
            o.left_filter == FilterStep::Hold,
            o.reference_filter == FilterStep::Hold,
    {
        TickOutcome {
            emissions: Vec::new(),
            validity_transition: None,
            right_filter: FilterStep::Hold,
            left_filter: FilterStep::Hold,
            reference_filter: FilterStep::Hold,
        }
    }
}

impl TickProcessor {
    /// A processor that has seen no tick yet: every previous code is
    /// `VALID_OK`.
    pub fn new() -> (p: Self)
        ensures
            p@ == (ValidityCodes { overall: VALID_OK, right: VALID_OK, left: VALID_OK }),
    {
        TickProcessor {
            previous: ValidityCodes { overall: VALID_OK, right: VALID_OK, left: VALID_OK },
        }
    }

    /// Decides one `tick`.
    ///
    /// `recv_ts` are the arrival timestamps drained for this tick and
    /// `packet` describes the freshest packet, if any was ever received.
    /// Without a packet only the receive times are sent and nothing else
    /// changes. With one, the packet's validity codes (absent ones read as
    /// `VALID_OK`) decide each filter's step and become the previous codes
    /// of the next tick, and a transition line is produced when the
    /// overall code differs from the previous one.
    #[verifier::rlimit(40)]
    pub fn process_tick(&mut self, recv_ts: &[i64], packet: Option<&PacketFields>) -> (outcome:
        TickOutcome)
        ensures
            ({
                let pk = match packet {
                    Some(p) => Some(*p),
                    None => None,
                };
                &&& outcome.emissions@ == planned_emissions(recv_ts@.len() > 0, pk)
                &&& final(self)@ == codes_after(old(self)@, pk)
                &&& (outcome.right_filter, outcome.left_filter, outcome.reference_filter)
                    == filter_steps(old(self)@, pk)
                &&& (outcome.validity_transition is Some <==> reports_transition(old(self)@, pk))
            }),
            outcome.validity_transition matches Some(line) ==> packet matches Some(p)
                && line@ == transition_text(
                old(self)@.overall,
                packet_codes(*p).overall,
                packet_codes(*p).left,
                packet_codes(*p).right,
            ),
    {
        let mut emissions: Vec<Emission> = Vec::new();
        push_when(&mut emissions, recv_ts.len() > 0, Emission::ReceiveTimes);
        assert(emissions@ =~= when(recv_ts@.len() > 0, Emission::ReceiveTimes));
        let p = match packet {
            None => {
                return TickOutcome {
                    emissions,
                    validity_transition: None,
                    right_filter: FilterStep::Hold,
                    left_filter: FilterStep::Hold,
                    reference_filter: FilterStep::Hold,
                };
            },
            Some(p) => p,
        };
        let overall = code_of(p.overall_validity);
        let right = code_of(p.right_validity);
        let left = code_of(p.left_validity);
        let previous = self.previous;

        let validity_transition = if overall == previous.overall {
            None
        } else {
            Some(transition_line(previous.overall, overall, left, right))
        };
        let right_filter = step_for(right, previous.right);
        let left_filter = step_for(left, previous.left);
        let reference_filter = step_for(overall, previous.overall);
        self.previous = ValidityCodes { overall, right, left };

        push_when(
            &mut emissions,
            right != VALID_INVALID && p.has_right_pose && p.trigger_right,
            Emission::ControllerPose(Side::Right),
        );
        push_when(
            &mut emissions,
            left != VALID_INVALID && p.has_left_pose && p.trigger_left,
            Emission::ControllerPose(Side::Left),
        );
        push_when(
            &mut emissions,
            overall != VALID_INVALID && p.has_reference_pose,
            Emission::ReferencePose,
        );
        push_when(&mut emissions, p.trigger_right, Emission::Scalar(Scalar::TriggerRight));
        push_when(&mut emissions, p.trigger_left, Emission::Scalar(Scalar::TriggerLeft));
        push_when(&mut emissions, p.grip_right, Emission::Scalar(Scalar::GripRight));
        push_when(&mut emissions, p.grip_left, Emission::Scalar(Scalar::GripLeft));
        push_when(&mut emissions, p.joystick_x_left, Emission::Scalar(Scalar::JoystickXLeft));
        push_when(&mut emissions, p.joystick_y_left, Emission::Scalar(Scalar::JoystickYLeft));
        push_when(&mut emissions, p.joystick_x_right, Emission::Scalar(Scalar::JoystickXRight));
        push_when(&mut emissions, p.joystick_y_right, Emission::Scalar(Scalar::JoystickYRight));
        push_button(&mut emissions, p.button_a, Button::A);
        push_button(&mut emissions, p.button_b, Button::B);
        push_button(&mut emissions, p.button_x, Button::X);
        push_button(&mut emissions, p.button_y, Button::Y);

        TickOutcome { emissions, validity_transition, right_filter, left_filter, reference_filter }
    }
}

} // verus!
