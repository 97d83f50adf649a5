//! Which controller a value belongs to, and the calibration of each side's
//! gripper.

use vstd::prelude::*;

verus! {

/// Which controller/arm side a value belongs to.
#[derive(Debug, Clone, Copy, PartialEq, Eq, Structural)]
pub enum Side {
    /// The right controller / right arm.
    Right,
    /// The left controller / left arm.
    Left,
}

/// The gripper angles, in whole degrees, that a side's trigger maps onto:
/// `(open, closed)`, reached at trigger `0` and trigger `1`.
pub open spec fn gripper_span(side: Side) -> (int, int) {
    match side {
        Side::Right => (-45, 10),
        Side::Left => (45, -10),
    }
}

/// Returns the `(open, closed)` gripper angles, in degrees, of `side`: the
/// right gripper opens at -45 and closes at 10, the left one mirrors it
/// (45 and -10).
pub fn gripper_span_degrees(side: Side) -> (span: (i32, i32))
    ensures
        span.0 as int == gripper_span(side).0,
        span.1 as int == gripper_span(side).1,
{
    match side {
        Side::Right => (-45, 10),
        Side::Left => (45, -10),
    }
}

} // verus!
