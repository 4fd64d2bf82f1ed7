//! Jump-cancel decisions of a character controller.
//!
//! The controller's velocities and easing curves are floating-point values;
//! this library holds the decisions that a jump cancel makes over them:
//! whether a cancel applies at all, which impulse rule it uses, and which
//! way the result is clamped against the directional threshold.
pub mod jump;

