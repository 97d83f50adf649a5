//! Decision logic of a Meta Quest VR teleoperation node for the OpenArm
//! robot: reading Quest UDP packets, keeping the freshest packet and a
//! bounded log of arrival times, and deciding, tick by tick, which outputs
//! are sent and which pose filters are reset.

pub mod clock;
pub mod message;
pub mod receive_loop;
pub mod receiver;
pub mod text;
pub mod transform;
pub mod tick;
