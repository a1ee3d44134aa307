//! The calls that the alarm makes on its output devices and its clock.

use vstd::prelude::*;

verus! {

/// Interval between two samples of the keypad or the motion line, in
/// milliseconds.
pub const POLL_INTERVAL_MS: u64 = 100;

/// Duration of one step of an LED pattern, in milliseconds.
pub const LED_STEP_MS: u64 = 200;

/// Period of the continuous alarm tone.
pub const ALARM_TONE_FREQUENCY: u16 = 0xFFFF;

/// Duty of the continuous alarm tone.
pub const ALARM_TONE_DUTY: u16 = 50000;

/// Number of rows of the character display.
pub const DISPLAY_ROWS: u8 = 2;

/// Number of columns of the character display.
pub const DISPLAY_COLS: u8 = 16;

/// One of the three status LEDs.
#[derive(Clone, Copy, Debug, PartialEq, Eq)]
pub enum Led {
    Red,
    Green,
    Blue,
}

/// One call on an output device or on the clock.
///
/// A driver carries out a sequence of actions strictly in order; `Sleep` is
/// the only action that takes time.
#[derive(Clone, Copy, Debug, PartialEq, Eq)]
pub enum Action {
    /// Switch a status LED on or off.
    SetLed { led: Led, on: bool },
    /// Sound the buzzer with the given period and duty.
    SetTone { frequency: u16, duty: u16 },
    /// Silence the buzzer.
    ToneOff,
    /// Blank the display.
    ClearDisplay,
    /// Move the display cursor; both coordinates count from zero.
    SetCursor { row: u8, col: u8 },
    /// Write a text at the cursor.
    WriteText { text: &'static str },
    /// Write a single symbol at the cursor.
    WriteSymbol { symbol: char },
    /// Suspend for a number of milliseconds.
    Sleep { millis: u64 },
}

impl Action {
    /// Whether the action drives an output device, as opposed to waiting.
    pub open spec fn is_output(self) -> bool {
        !(self is Sleep)
    }

    /// Whether the action respects the display's size: a cursor move stays
    /// within its rows and columns.
    pub open spec fn on_display(self) -> bool {
        self matches Action::SetCursor { row, col } ==> row < DISPLAY_ROWS && col < DISPLAY_COLS
    }

    /// Time the action takes, in milliseconds.
    pub open spec fn millis(self) -> nat {
        match self {
            Action::Sleep { millis } => millis as nat,
            _ => 0,
        }
    }
}

/// Time that the first `k` actions of a script take, in milliseconds.
pub open spec fn elapsed_upto(script: Seq<Action>, k: int) -> nat
    decreases k,
{
    if k <= 0 {
        0
    } else {
        elapsed_upto(script, k - 1) + script[k - 1].millis()
    }
}

/// Time that a whole script takes, in milliseconds.
pub open spec fn elapsed(script: Seq<Action>) -> nat {
    elapsed_upto(script, script.len() as int)
}

/// Whether every cursor move of a script stays on the display.
pub open spec fn fits_display(script: Seq<Action>) -> bool {
    forall|i: int| 0 <= i < script.len() ==> (#[trigger] script[i]).on_display()
}

/// Two scripts that fit the display still fit it when run back to back.
pub proof fn lemma_fits_concat(a: Seq<Action>, b: Seq<Action>)
    requires
        fits_display(a),
        fits_display(b),
    ensures
        fits_display(a + b),
{
    assert forall|i: int| 0 <= i < (a + b).len() implies (#[trigger] (a + b)[i]).on_display() by {
        if i >= a.len() {
            assert((a + b)[i] == b[i - a.len()]);
        }
    }
}

/// The time of a script's prefix does not depend on what follows the prefix.
pub proof fn lemma_elapsed_prefix(a: Seq<Action>, b: Seq<Action>, k: int)
    requires
        0 <= k <= a.len(),
    ensures
        elapsed_upto(a + b, k) == elapsed_upto(a, k),
    decreases k,
{
    if k > 0 {
        lemma_elapsed_prefix(a, b, k - 1);
    }
}

/// Running two scripts back to back takes the sum of their times.
pub proof fn lemma_elapsed_concat(a: Seq<Action>, b: Seq<Action>)
    ensures
        elapsed(a + b) == elapsed(a) + elapsed(b),
{
    lemma_elapsed_suffix(a, b, b.len() as int);
}

proof fn lemma_elapsed_suffix(a: Seq<Action>, b: Seq<Action>, j: int)
    requires
        0 <= j <= b.len(),
    ensures
        elapsed_upto(a + b, a.len() + j) == elapsed(a) + elapsed_upto(b, j),
    decreases j,
{
    if j == 0 {
        lemma_elapsed_prefix(a, b, a.len() as int);
    } else {
        lemma_elapsed_suffix(a, b, j - 1);
    }
}

} // verus!
