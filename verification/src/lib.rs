//! Movement-and-camera core of a third-person character demo:
//! an input-driven character controller, an orbiting camera rig with
//! gimbal and zoom limits, and a short-lived debris burst reacting to
//! a dash action.
//!
//! All continuous quantities are fixed-point: an `i64` counts
//! thousandths of a world unit (or of a radian, or of a second).

pub mod camera;
pub mod debris;
pub mod lifetime;
pub mod player;
pub mod rng;
pub mod fixed;
pub mod frame;
pub mod input;
pub mod vecfx;
