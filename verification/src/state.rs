//! The states of the alarm and the events that the feedback renders.

use vstd::prelude::*;

verus! {

/// The state of the alarm. Exactly one is active at a time.
#[derive(Clone, Copy, Debug, PartialEq, Eq)]
pub enum AlarmState {
    /// Power-on greeting and the first start-up countdown.
    Booting,
    /// The second start-up countdown.
    CalibratingSensor,
    /// Waiting for the four symbols of the password.
    SettingPassword,
    /// Watching the motion sensor.
    Armed,
    /// Motion was sensed and the alert has been raised.
    Triggered,
    /// Waiting for the password to be entered.
    VerifyingPassword,
    /// Too many wrong entries: the keypad is ignored until the countdown ends.
    Locked,
    /// The password was entered correctly.
    Disarmed,
}

/// What happened in a state, as far as the feedback is concerned.
#[derive(Clone, Copy, Debug, PartialEq, Eq)]
pub enum Event {
    /// The state ran its course and the alarm moves on.
    Advance,
    /// A keystroke was accepted as the symbol at `position`, counted from
    /// zero, of the sequence being entered.
    KeyAccepted { symbol: char, position: u8 },
    /// The fourth symbol of the new password was stored.
    PasswordStored,
    /// The motion sensor reported motion.
    MotionDetected,
    /// A complete entry matched the password.
    EntryCorrect,
    /// A complete entry did not match the password.
    EntryIncorrect,
    /// A wrong entry reached the attempt limit.
    LockedOut,
    /// One tick of the lockout countdown, with `remaining` ticks to go, this
    /// one included.
    LockoutCountdown { remaining: u8 },
    /// The lockout countdown has ended.
    LockoutExpired,
}

} // verus!
