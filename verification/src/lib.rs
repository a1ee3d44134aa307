//! Control logic of a standalone intrusion alarm: keypad scanning, motion
//! sensing, password authentication with lockout, and the alarm state machine
//! that sequences them.
//!
//! The library performs no input or output. A driver samples the input lines,
//! hands the samples to [`alarm::AlarmController::tick`], and carries out the
//! [`action::Action`]s that come back, in order.

pub mod action;
pub mod alarm;
pub mod auth;
pub mod behavior;
pub mod feedback;
pub mod keypad;
pub mod melody;
pub mod sensor;
pub mod state;
