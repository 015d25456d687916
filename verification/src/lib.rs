//! Verified core of a mode-driven pendulum balancing controller.
//!
//! The library models the control logic of a pendulum rig built around a
//! 12-bit rotary magnetic encoder and a PWM-driven motor: the shared mode
//! word and its button transition table, the offset/direction calibration
//! arithmetic with wraparound correction, the raw-to-calibrated angle
//! conversion, the linear command-to-duty mapping bounded by safe limits,
//! the potentiometer-driven manual policy, and the fixed-rate evaluator's
//! per-tick decisions.
//!
//! Angles are kept in the encoder's own integer domain: one revolution is
//! 4096 counts, so a calibrated angle is a signed count in (-2048, 2048]
//! and the radian value is `count * pi / 2048`. Commands are kept in
//! thousandths, so the command range [-1, 1] is the integer range
//! [-1000, 1000]. Peripheral drivers, timers and the floating-point
//! trigonometry of the sine policy live with the platform layer, which
//! hands this library plain integer samples and carries its decisions out.

pub mod angle;
pub mod env;
pub mod evaluator;
pub mod manual_policy;
pub mod mode;
pub mod sin_policy;
