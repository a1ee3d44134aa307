//! Feedback: what the LEDs, the buzzer and the display do in each state.

use vstd::prelude::*;
use crate::action::{
    fits_display, lemma_fits_concat, Action, Led, ALARM_TONE_DUTY, ALARM_TONE_FREQUENCY,
    LED_STEP_MS, POLL_INTERVAL_MS,
};
use crate::auth::PASSWORD_LEN;
use crate::melody;
use crate::melody::Melody;
use crate::state::{AlarmState, Event};

verus! {

/// Number of ticks of a start-up countdown.
pub const STARTUP_COUNTDOWN: u8 = 5;

/// The symbol of a decimal digit.
pub open spec fn digit_symbol(digit: int) -> char
    recommends
        0 <= digit < 10,
{
    ('0' as int + digit) as char
}

/// Writes a number at the cursor in decimal, most significant digit first,
/// one call per digit.
pub open spec fn write_number(n: nat) -> Seq<Action>
    decreases n,
{
    if n < 10 {
        seq![Action::WriteSymbol { symbol: digit_symbol(n as int) }]
    } else {
        write_number(n / 10).push(Action::WriteSymbol { symbol: digit_symbol((n % 10) as int) })
    }
}

/// Switches the three LEDs and the buzzer off.
pub open spec fn all_off() -> Seq<Action> {
    seq![
        Action::SetLed { led: Led::Red, on: false },
        Action::SetLed { led: Led::Green, on: false },
        Action::SetLed { led: Led::Blue, on: false },
        Action::ToneOff,
    ]
}

/// Clears the display and writes one line of text in its top row.
pub open spec fn banner(text: &'static str) -> Seq<Action> {
    seq![
        Action::ClearDisplay,
        Action::SetCursor { row: 0, col: 0 },
        Action::WriteText { text },
    ]
}

/// Clears the display and writes two lines of text: the first from the top
/// left corner, the second in the bottom row from column `col`.
pub open spec fn screen(first: &'static str, col: u8, second: &'static str) -> Seq<Action> {
    seq![
        Action::ClearDisplay,
        Action::SetCursor { row: 0, col: 0 },
        Action::WriteText { text: first },
        Action::SetCursor { row: 1, col },
        Action::WriteText { text: second },
    ]
}

/// Lights the red, the green and the blue LED in turn, one step each.
pub open spec fn led_chase() -> Seq<Action> {
    seq![
        Action::SetLed { led: Led::Red, on: true },
        Action::Sleep { millis: LED_STEP_MS },
        Action::SetLed { led: Led::Red, on: false },
        Action::SetLed { led: Led::Green, on: true },
        Action::Sleep { millis: LED_STEP_MS },
        Action::SetLed { led: Led::Green, on: false },
        Action::SetLed { led: Led::Blue, on: true },
        Action::Sleep { millis: LED_STEP_MS },
        Action::SetLed { led: Led::Blue, on: false },
    ]
}

/// Leaves exactly one LED lit.
pub open spec fn settle(led: Led) -> Seq<Action> {
    match led {
        Led::Red => seq![
            Action::SetLed { led: Led::Red, on: true },
            Action::SetLed { led: Led::Green, on: false },
            Action::SetLed { led: Led::Blue, on: false },
        ],
        Led::Green => seq![
            Action::SetLed { led: Led::Green, on: true },
            Action::SetLed { led: Led::Red, on: false },
            Action::SetLed { led: Led::Blue, on: false },
        ],
        Led::Blue => seq![
            Action::SetLed { led: Led::Blue, on: true },
            Action::SetLed { led: Led::Red, on: false },
            Action::SetLed { led: Led::Green, on: false },
        ],
    }
}

/// The attract sequence: three rounds of the LED chase, after which `led`
/// alone stays lit.
pub open spec fn attract(led: Led) -> Seq<Action> {
    led_chase() + led_chase() + led_chase() + settle(led)
}

/// Shows how many seconds are left.
pub open spec fn seconds_left(n: nat) -> Seq<Action> {
    seq![Action::ClearDisplay, Action::SetCursor { row: 0, col: 4 }] + write_number(n) + seq![
        Action::WriteText { text: " seconds" },
    ]
}

/// One tick of a start-up countdown: the count, a round of the LED chase,
/// then the rest of the second.
pub open spec fn startup_tick(n: nat) -> Seq<Action> {
    seconds_left(n) + led_chase() + seq![Action::Sleep { millis: 1000 }]
}

/// A start-up countdown from `from` down to one.
pub open spec fn startup_countdown(from: nat) -> Seq<Action>
    decreases from,
{
    if from == 0 {
        Seq::empty()
    } else {
        startup_tick(from) + startup_countdown((from - 1) as nat)
    }
}

/// One tick of the lockout countdown: the count, a second's wait, then a
/// round of the LED chase.
pub open spec fn lockout_tick(remaining: nat) -> Seq<Action> {
    seconds_left(remaining) + seq![Action::Sleep { millis: 1000 }] + led_chase()
}

/// Power-on: everything off, the greeting, the calibration notice.
pub open spec fn greeting() -> Seq<Action> {
    all_off() + seq![Action::Sleep { millis: 500 }] + screen("Burglar", 8, "alarm") + seq![
        Action::Sleep { millis: 2000 },
    ] + screen("Calibrating PIR", 0, "Please wait...") + seq![Action::Sleep { millis: 1500 }]
}

/// The notice shown during the second start-up countdown.
pub open spec fn initializing() -> Seq<Action> {
    screen("Initializing", 5, "software...") + seq![Action::Sleep { millis: 1500 }]
}

/// The request to enter a new password.
pub open spec fn password_setup_prompt() -> Seq<Action> {
    screen("Alarm", 7, "armed!") + seq![
        Action::SetLed { led: Led::Blue, on: true },
        Action::Sleep { millis: 1500 },
    ] + screen("Enter    custom", 0, "password :") + seq![
        Action::Sleep { millis: 200 },
        Action::SetLed { led: Led::Blue, on: false },
    ]
}

/// Echo of a keystroke of the new password, acknowledged with a short tone.
pub open spec fn setup_echo(symbol: char, position: u8) -> Seq<Action> {
    seq![
        Action::SetCursor { row: 1, col: (11 + position) as u8 },
        Action::WriteSymbol { symbol },
        Action::SetTone { frequency: ALARM_TONE_FREQUENCY, duty: ALARM_TONE_DUTY },
        Action::Sleep { millis: POLL_INTERVAL_MS },
        Action::ToneOff,
    ]
}

/// The alarm is armed: the blue LED is lit and the display says so.
pub open spec fn armed_notice() -> Seq<Action> {
    seq![Action::SetLed { led: Led::Blue, on: true }, Action::Sleep { millis: 1500 }] + screen(
        "Waiting  for",
        7,
        "motion...",
    ) + seq![Action::Sleep { millis: 2000 }]
}

/// The alert: the armed indicator goes out, the buzzer sounds continuously
/// through the attract sequence and the alert message, and falls silent
/// before the password prompt appears.
pub open spec fn motion_alert() -> Seq<Action> {
    seq![
        Action::SetLed { led: Led::Blue, on: false },
        Action::SetTone { frequency: ALARM_TONE_FREQUENCY, duty: ALARM_TONE_DUTY },
    ] + attract(Led::Red) + banner("Motion alert!!!") + seq![
        Action::Sleep { millis: 2000 },
        Action::ToneOff,
    ] + banner("Enter  password:")
}

/// Echo of a keystroke of a password entry.
pub open spec fn entry_echo(symbol: char, position: u8) -> Seq<Action> {
    seq![
        Action::SetCursor { row: 1, col: (position + 1) as u8 },
        Action::WriteSymbol { symbol },
        Action::Sleep { millis: POLL_INTERVAL_MS },
    ]
}

/// The entry was correct.
pub open spec fn correct_notice() -> Seq<Action> {
    attract(Led::Green) + banner("Password correct")
}

/// The entry was wrong; the prompt returns.
pub open spec fn incorrect_notice() -> Seq<Action> {
    seq![Action::Sleep { millis: 1000 }] + attract(Led::Red) + screen("Password ", 6, "incorrect")
        + seq![Action::Sleep { millis: 1000 }] + banner("Enter password:")
}

/// Too many wrong entries; the lockout begins.
pub open spec fn lockout_notice() -> Seq<Action> {
    attract(Led::Red) + seq![
        Action::Sleep { millis: 1000 },
        Action::ClearDisplay,
        Action::WriteText { text: "Too many wrong" },
        Action::SetCursor { row: 1, col: 0 },
        Action::WriteText { text: "attempts.Wait.. " },
        Action::Sleep { millis: 1700 },
        Action::SetLed { led: Led::Red, on: false },
    ]
}

/// The lockout is over; the prompt returns.
pub open spec fn lockout_over() -> Seq<Action> {
    seq![Action::SetLed { led: Led::Red, on: true }] + banner("Enter password:")
}

/// What follows the success tune: silence, the disarm message, a pause, and
/// the return to the armed display.
pub open spec fn rearm() -> Seq<Action> {
    seq![
        Action::ToneOff,
        Action::ClearDisplay,
        Action::SetCursor { row: 0, col: 0 },
        Action::WriteText { text: "Alarm" },
        Action::SetCursor { row: 1, col: 6 },
        Action::Sleep { millis: 10 },
        Action::WriteText { text: "disarmed  " },
        Action::Sleep { millis: 3000 },
        Action::SetLed { led: Led::Green, on: false },
    ] + screen("Waiting  for", 7, "motion...") + seq![
        Action::Sleep { millis: 200 },
        Action::SetLed { led: Led::Blue, on: true },
    ]
}

/// The success tune, played in full, and what follows it.
pub open spec fn disarmed_notice() -> Seq<Action> {
    melody::script(melody::success_notes()) + rearm()
}

/// The calls that render `event` in `state`, in order. A pair that the alarm
/// never produces renders as nothing, and so does a keystroke at a position
/// beyond the length of a password.
pub open spec fn script(state: AlarmState, event: Event) -> Seq<Action> {
    match (state, event) {
        (AlarmState::Booting, Event::Advance) => greeting() + startup_countdown(
            STARTUP_COUNTDOWN as nat,
        ),
        (AlarmState::CalibratingSensor, Event::Advance) => initializing() + startup_countdown(
            STARTUP_COUNTDOWN as nat,
        ) + password_setup_prompt(),
        (AlarmState::SettingPassword, Event::KeyAccepted { symbol, position }) => if position
            < PASSWORD_LEN {
            setup_echo(symbol, position)
        } else {
            Seq::empty()
        },
        (AlarmState::SettingPassword, Event::PasswordStored) => armed_notice(),
        (AlarmState::Armed, Event::MotionDetected) => motion_alert(),
        (AlarmState::VerifyingPassword, Event::KeyAccepted { symbol, position }) => if position
            < PASSWORD_LEN {
            entry_echo(symbol, position)
        } else {
            Seq::empty()
        },
        (AlarmState::VerifyingPassword, Event::EntryCorrect) => correct_notice(),
        (AlarmState::VerifyingPassword, Event::EntryIncorrect) => incorrect_notice(),
        (AlarmState::VerifyingPassword, Event::LockedOut) => lockout_notice(),
        (AlarmState::Locked, Event::LockoutCountdown { remaining }) => lockout_tick(
            remaining as nat,
        ),
        (AlarmState::Locked, Event::LockoutExpired) => lockout_over(),
        (AlarmState::Disarmed, Event::Advance) => disarmed_notice(),
        _ => Seq::empty(),
    }
}

proof fn lemma_write_number_fits(n: nat)
    ensures
        fits_display(write_number(n)),
    decreases n,
{
    if n >= 10 {
        lemma_write_number_fits(n / 10);
    }
}

proof fn lemma_seconds_left_fits(n: nat)
    ensures
        fits_display(seconds_left(n)),
{
    lemma_write_number_fits(n);
    let head = seq![Action::ClearDisplay, Action::SetCursor { row: 0, col: 4 }];
    lemma_fits_concat(head, write_number(n));
    lemma_fits_concat(head + write_number(n), seq![Action::WriteText { text: " seconds" }]);
}

proof fn lemma_startup_countdown_fits(from: nat)
    ensures
        fits_display(startup_countdown(from)),
    decreases from,
{
    if from > 0 {
        lemma_startup_countdown_fits((from - 1) as nat);
        lemma_seconds_left_fits(from);
        lemma_fits_concat(seconds_left(from), led_chase());
        lemma_fits_concat(seconds_left(from) + led_chase(), seq![Action::Sleep { millis: 1000 }]);
        lemma_fits_concat(startup_tick(from), startup_countdown((from - 1) as nat));
    }
}

proof fn lemma_attract_fits(led: Led)
    ensures
        fits_display(attract(led)),
{
    lemma_fits_concat(led_chase(), led_chase());
    lemma_fits_concat(led_chase() + led_chase(), led_chase());
    lemma_fits_concat(led_chase() + led_chase() + led_chase(), settle(led));
}

proof fn lemma_lockout_tick_fits(remaining: nat)
    ensures
        fits_display(lockout_tick(remaining)),
{
    lemma_seconds_left_fits(remaining);
    lemma_fits_concat(seconds_left(remaining), seq![Action::Sleep { millis: 1000 }]);
    lemma_fits_concat(seconds_left(remaining) + seq![Action::Sleep { millis: 1000 }], led_chase());
}

/// Every script keeps the cursor on the display: no call moves it beyond the
/// two rows of sixteen columns.
pub proof fn script_fits_display(state: AlarmState, event: Event)
    ensures
        fits_display(script(state, event)),
{
    let countdown = startup_countdown(STARTUP_COUNTDOWN as nat);
    lemma_startup_countdown_fits(STARTUP_COUNTDOWN as nat);
    lemma_attract_fits(Led::Red);
    lemma_attract_fits(Led::Green);
    match (state, event) {
        (AlarmState::Booting, Event::Advance) => {
            lemma_fits_concat(greeting(), countdown);
        },
        (AlarmState::CalibratingSensor, Event::Advance) => {
            lemma_fits_concat(initializing(), countdown);
            lemma_fits_concat(initializing() + countdown, password_setup_prompt());
        },
        (AlarmState::Armed, Event::MotionDetected) => {
            let head = seq![
                Action::SetLed { led: Led::Blue, on: false },
                Action::SetTone { frequency: ALARM_TONE_FREQUENCY, duty: ALARM_TONE_DUTY },
            ];
            let mid = seq![Action::Sleep { millis: 2000 }, Action::ToneOff];
            lemma_fits_concat(head, attract(Led::Red));
            lemma_fits_concat(head + attract(Led::Red), banner("Motion alert!!!"));
            lemma_fits_concat(head + attract(Led::Red) + banner("Motion alert!!!"), mid);
            lemma_fits_concat(
                head + attract(Led::Red) + banner("Motion alert!!!") + mid,
                banner("Enter  password:"),
            );
        },
        (AlarmState::VerifyingPassword, Event::EntryCorrect) => {
            lemma_fits_concat(attract(Led::Green), banner("Password correct"));
        },
        (AlarmState::VerifyingPassword, Event::EntryIncorrect) => {
            let wait = seq![Action::Sleep { millis: 1000 }];
            lemma_fits_concat(wait, attract(Led::Red));
            lemma_fits_concat(wait + attract(Led::Red), screen("Password ", 6, "incorrect"));
            lemma_fits_concat(
                wait + attract(Led::Red) + screen("Password ", 6, "incorrect"),
                wait,
            );
            lemma_fits_concat(
                wait + attract(Led::Red) + screen("Password ", 6, "incorrect") + wait,
                banner("Enter password:"),
            );
        },
        (AlarmState::VerifyingPassword, Event::LockedOut) => {
            let tail = seq![
                Action::Sleep { millis: 1000 },
                Action::ClearDisplay,
                Action::WriteText { text: "Too many wrong" },
                Action::SetCursor { row: 1, col: 0 },
                Action::WriteText { text: "attempts.Wait.. " },
                Action::Sleep { millis: 1700 },
                Action::SetLed { led: Led::Red, on: false },
            ];
            lemma_fits_concat(attract(Led::Red), tail);
        },
        (AlarmState::Locked, Event::LockoutCountdown { remaining }) => {
            lemma_lockout_tick_fits(remaining as nat);
        },
        (AlarmState::Disarmed, Event::Advance) => {
            melody::lemma_script_fits_display(melody::success_notes(), 9);
            lemma_fits_concat(melody::script(melody::success_notes()), rearm());
        },
        _ => {},
    }
}

/// The symbol of a decimal digit.
fn digit(d: u8) -> (symbol: char)
    requires
        d < 10,
    ensures
        symbol == digit_symbol(d as int),
{
    (48u8 + d) as char
}

/// Appends the calls that write `n` in decimal.
fn emit_number(out: &mut Vec<Action>, n: u8)
    ensures
        final(out)@ == old(out)@ + write_number(n as nat),
{
    if n >= 100 {
        out.push(Action::WriteSymbol { symbol: digit(n / 100) });
    }
    if n >= 10 {
        out.push(Action::WriteSymbol { symbol: digit((n / 10) % 10) });
    }
    out.push(Action::WriteSymbol { symbol: digit(n % 10) });
    proof {
        reveal_with_fuel(write_number, 3);
    }
}

fn emit_all_off(out: &mut Vec<Action>)
    ensures
        final(out)@ == old(out)@ + all_off(),
{
    out.push(Action::SetLed { led: Led::Red, on: false });
    out.push(Action::SetLed { led: Led::Green, on: false });
    out.push(Action::SetLed { led: Led::Blue, on: false });
    out.push(Action::ToneOff);
}

fn emit_sleep(out: &mut Vec<Action>, millis: u64)
    ensures
        final(out)@ == old(out)@ + seq![Action::Sleep { millis }],
{
    out.push(Action::Sleep { millis });
}

fn emit_led(out: &mut Vec<Action>, led: Led, on: bool)
    ensures
        final(out)@ == old(out)@ + seq![Action::SetLed { led, on }],
{
    out.push(Action::SetLed { led, on });
}

fn emit_banner(out: &mut Vec<Action>, text: &'static str)
    ensures
        final(out)@ == old(out)@ + banner(text),
{
    out.push(Action::ClearDisplay);
    out.push(Action::SetCursor { row: 0, col: 0 });
    out.push(Action::WriteText { text });
}

fn emit_screen(out: &mut Vec<Action>, first: &'static str, col: u8, second: &'static str)
    ensures
        final(out)@ == old(out)@ + screen(first, col, second),
{
    out.push(Action::ClearDisplay);
    out.push(Action::SetCursor { row: 0, col: 0 });
    out.push(Action::WriteText { text: first });
    out.push(Action::SetCursor { row: 1, col });
    out.push(Action::WriteText { text: second });
}

fn emit_led_chase(out: &mut Vec<Action>)
    ensures
        final(out)@ == old(out)@ + led_chase(),
{
    out.push(Action::SetLed { led: Led::Red, on: true });
    out.push(Action::Sleep { millis: LED_STEP_MS });
    out.push(Action::SetLed { led: Led::Red, on: false });
    out.push(Action::SetLed { led: Led::Green, on: true });
    out.push(Action::Sleep { millis: LED_STEP_MS });
    out.push(Action::SetLed { led: Led::Green, on: false });
    out.push(Action::SetLed { led: Led::Blue, on: true });
    out.push(Action::Sleep { millis: LED_STEP_MS });
    out.push(Action::SetLed { led: Led::Blue, on: false });
}

fn emit_settle(out: &mut Vec<Action>, led: Led)
    ensures
        final(out)@ == old(out)@ + settle(led),
{
    match led {
        Led::Red => {
            out.push(Action::SetLed { led: Led::Red, on: true });
            out.push(Action::SetLed { led: Led::Green, on: false });
            out.push(Action::SetLed { led: Led::Blue, on: false });
        },
        Led::Green => {
            out.push(Action::SetLed { led: Led::Green, on: true });
            out.push(Action::SetLed { led: Led::Red, on: false });
            out.push(Action::SetLed { led: Led::Blue, on: false });
        },
        Led::Blue => {
            out.push(Action::SetLed { led: Led::Blue, on: true });
            out.push(Action::SetLed { led: Led::Red, on: false });
            out.push(Action::SetLed { led: Led::Green, on: false });
        },
    }
}

fn emit_attract(out: &mut Vec<Action>, led: Led)
    ensures
        final(out)@ == old(out)@ + attract(led),
{
    emit_led_chase(out);
    emit_led_chase(out);
    emit_led_chase(out);
    emit_settle(out, led);
}

fn emit_seconds_left(out: &mut Vec<Action>, n: u8)
    ensures
        final(out)@ == old(out)@ + seconds_left(n as nat),
{
    out.push(Action::ClearDisplay);
    out.push(Action::SetCursor { row: 0, col: 4 });
    emit_number(out, n);
    out.push(Action::WriteText { text: " seconds" });
}

fn emit_startup_countdown(out: &mut Vec<Action>, from: u8)
    ensures
        final(out)@ == old(out)@ + startup_countdown(from as nat),
{
    let mut n: u8 = from;
    while n > 0
        invariant
            out@ + startup_countdown(n as nat) == old(out)@ + startup_countdown(from as nat),
        decreases n,
    {
        let ghost before = out@;
        emit_seconds_left(out, n);
        emit_led_chase(out);
        emit_sleep(out, 1000);
        assert(out@ + startup_countdown((n - 1) as nat) =~= before + startup_countdown(n as nat));
        n = n - 1;
    }
}

fn emit_lockout_tick(out: &mut Vec<Action>, remaining: u8)
    ensures
        final(out)@ == old(out)@ + lockout_tick(remaining as nat),
{
    emit_seconds_left(out, remaining);
    emit_sleep(out, 1000);
    emit_led_chase(out);
}

fn emit_greeting(out: &mut Vec<Action>)
    ensures
        final(out)@ == old(out)@ + greeting(),
{
    emit_all_off(out);
    emit_sleep(out, 500);
    emit_screen(out, "Burglar", 8, "alarm");
    emit_sleep(out, 2000);
    emit_screen(out, "Calibrating PIR", 0, "Please wait...");
    emit_sleep(out, 1500);
}

fn emit_initializing(out: &mut Vec<Action>)
    ensures
        final(out)@ == old(out)@ + initializing(),
{
    emit_screen(out, "Initializing", 5, "software...");
    emit_sleep(out, 1500);
}

fn emit_password_setup_prompt(out: &mut Vec<Action>)
    ensures
        final(out)@ == old(out)@ + password_setup_prompt(),
{
    emit_screen(out, "Alarm", 7, "armed!");
    out.push(Action::SetLed { led: Led::Blue, on: true });
    out.push(Action::Sleep { millis: 1500 });
    emit_screen(out, "Enter    custom", 0, "password :");
    out.push(Action::Sleep { millis: 200 });
    out.push(Action::SetLed { led: Led::Blue, on: false });
}

fn emit_setup_echo(out: &mut Vec<Action>, symbol: char, position: u8)
    requires
        position < PASSWORD_LEN,
    ensures
        final(out)@ == old(out)@ + setup_echo(symbol, position),
{
    out.push(Action::SetCursor { row: 1, col: 11 + position });
    out.push(Action::WriteSymbol { symbol });
    out.push(Action::SetTone { frequency: ALARM_TONE_FREQUENCY, duty: ALARM_TONE_DUTY });
    out.push(Action::Sleep { millis: POLL_INTERVAL_MS });
    out.push(Action::ToneOff);
}

fn emit_armed_notice(out: &mut Vec<Action>)
    ensures
        final(out)@ == old(out)@ + armed_notice(),
{
    out.push(Action::SetLed { led: Led::Blue, on: true });
    out.push(Action::Sleep { millis: 1500 });
    emit_screen(out, "Waiting  for", 7, "motion...");
    emit_sleep(out, 2000);
}

fn emit_motion_alert(out: &mut Vec<Action>)
    ensures
        final(out)@ == old(out)@ + motion_alert(),
{
    out.push(Action::SetLed { led: Led::Blue, on: false });
    out.push(Action::SetTone { frequency: ALARM_TONE_FREQUENCY, duty: ALARM_TONE_DUTY });
    emit_attract(out, Led::Red);
    emit_banner(out, "Motion alert!!!");
    out.push(Action::Sleep { millis: 2000 });
    out.push(Action::ToneOff);
    emit_banner(out, "Enter  password:");
}

fn emit_entry_echo(out: &mut Vec<Action>, symbol: char, position: u8)
    requires
        position < PASSWORD_LEN,
    ensures
        final(out)@ == old(out)@ + entry_echo(symbol, position),
{
    out.push(Action::SetCursor { row: 1, col: position + 1 });
    out.push(Action::WriteSymbol { symbol });
    out.push(Action::Sleep { millis: POLL_INTERVAL_MS });
}

fn emit_correct_notice(out: &mut Vec<Action>)
    ensures
        final(out)@ == old(out)@ + correct_notice(),
{
    emit_attract(out, Led::Green);
    emit_banner(out, "Password correct");
}

fn emit_incorrect_notice(out: &mut Vec<Action>)
    ensures
        final(out)@ == old(out)@ + incorrect_notice(),
{
    emit_sleep(out, 1000);
    emit_attract(out, Led::Red);
    emit_screen(out, "Password ", 6, "incorrect");
    emit_sleep(out, 1000);
    emit_banner(out, "Enter password:");
}

fn emit_lockout_notice(out: &mut Vec<Action>)
    ensures
        final(out)@ == old(out)@ + lockout_notice(),
{
    emit_attract(out, Led::Red);
    out.push(Action::Sleep { millis: 1000 });
    out.push(Action::ClearDisplay);
    out.push(Action::WriteText { text: "Too many wrong" });
    out.push(Action::SetCursor { row: 1, col: 0 });
    out.push(Action::WriteText { text: "attempts.Wait.. " });
    out.push(Action::Sleep { millis: 1700 });
    out.push(Action::SetLed { led: Led::Red, on: false });
}

fn emit_lockout_over(out: &mut Vec<Action>)
    ensures
        final(out)@ == old(out)@ + lockout_over(),
{
    emit_led(out, Led::Red, true);
    emit_banner(out, "Enter password:");
}

fn emit_rearm(out: &mut Vec<Action>)
    ensures
        final(out)@ == old(out)@ + rearm(),
{
    out.push(Action::ToneOff);
    out.push(Action::ClearDisplay);
    out.push(Action::SetCursor { row: 0, col: 0 });
    out.push(Action::WriteText { text: "Alarm" });
    out.push(Action::SetCursor { row: 1, col: 6 });
    out.push(Action::Sleep { millis: 10 });
    out.push(Action::WriteText { text: "disarmed  " });
    out.push(Action::Sleep { millis: 3000 });
    out.push(Action::SetLed { led: Led::Green, on: false });
    emit_screen(out, "Waiting  for", 7, "motion...");
    out.push(Action::Sleep { millis: 200 });
    out.push(Action::SetLed { led: Led::Blue, on: true });
}

fn emit_disarmed_notice(out: &mut Vec<Action>)
    ensures
        final(out)@ == old(out)@ + disarmed_notice(),
{
    let tune = Melody::success();
    tune.play(out);
    emit_rearm(out);
}

/// Maps a state and an event to the calls on the LEDs, the buzzer, the
/// display and the clock that render it.
///
/// The controller has no state of its own: what it renders depends on the
/// state and the event alone.
#[derive(Clone, Copy, Debug)]
pub struct FeedbackController {}

impl FeedbackController {
    pub fn new() -> (feedback: FeedbackController) {
        FeedbackController {  }
    }

    /// Appends the calls that render `event` in `state`.
    pub fn render_into(&self, state: AlarmState, event: Event, out: &mut Vec<Action>)
        ensures
            final(out)@ == old(out)@ + script(state, event),
    {
        match (state, event) {
            (AlarmState::Booting, Event::Advance) => {
                emit_greeting(out);
                emit_startup_countdown(out, STARTUP_COUNTDOWN);
            },
            (AlarmState::CalibratingSensor, Event::Advance) => {
                emit_initializing(out);
                emit_startup_countdown(out, STARTUP_COUNTDOWN);
                emit_password_setup_prompt(out);
            },
            (AlarmState::SettingPassword, Event::KeyAccepted { symbol, position }) => {
                if (position as usize) < PASSWORD_LEN {
                    emit_setup_echo(out, symbol, position);
                }
            },
            (AlarmState::SettingPassword, Event::PasswordStored) => {
                emit_armed_notice(out);
            },
            (AlarmState::Armed, Event::MotionDetected) => {
                emit_motion_alert(out);
            },
            (AlarmState::VerifyingPassword, Event::KeyAccepted { symbol, position }) => {
                if (position as usize) < PASSWORD_LEN {
                    emit_entry_echo(out, symbol, position);
                }
            },
            (AlarmState::VerifyingPassword, Event::EntryCorrect) => {
                emit_correct_notice(out);
            },
            (AlarmState::VerifyingPassword, Event::EntryIncorrect) => {
                emit_incorrect_notice(out);
            },
            (AlarmState::VerifyingPassword, Event::LockedOut) => {
                emit_lockout_notice(out);
            },
            (AlarmState::Locked, Event::LockoutCountdown { remaining }) => {
                emit_lockout_tick(out, remaining);
            },
            (AlarmState::Locked, Event::LockoutExpired) => {
                emit_lockout_over(out);
            },
            (AlarmState::Disarmed, Event::Advance) => {
                emit_disarmed_notice(out);
            },
            _ => {},
        }
    }

    /// The calls that render `event` in `state`, in order.
    pub fn render(&self, state: AlarmState, event: Event) -> (actions: Vec<Action>)
        ensures
            actions@ == script(state, event),
    {
        let mut actions: Vec<Action> = Vec::new();
        self.render_into(state, event, &mut actions);
        actions
    }
}

/// Rendering is repeatable: two calls for the same state and event give
/// identical sequences of calls.
pub proof fn render_is_repeatable(
    feedback: FeedbackController,
    state: AlarmState,
    event: Event,
    first: Vec<Action>,
    second: Vec<Action>,
)
    requires
        call_ensures(FeedbackController::render, (&feedback, state, event), first),
        call_ensures(FeedbackController::render, (&feedback, state, event), second),
    ensures
        first@ == second@,
{
}

} // verus!
