use smart_guard::action::{
    Action, Led, ALARM_TONE_DUTY, ALARM_TONE_FREQUENCY, DISPLAY_COLS, DISPLAY_ROWS, LED_STEP_MS,
    POLL_INTERVAL_MS,
};
use smart_guard::feedback::{FeedbackController, STARTUP_COUNTDOWN};
use smart_guard::state::{AlarmState, Event};

const STATES: [AlarmState; 8] = [
    AlarmState::Booting,
    AlarmState::CalibratingSensor,
    AlarmState::SettingPassword,
    AlarmState::Armed,
    AlarmState::Triggered,
    AlarmState::VerifyingPassword,
    AlarmState::Locked,
    AlarmState::Disarmed,
];

fn events() -> Vec<Event> {
    let mut events = vec![
        Event::Advance,
        Event::PasswordStored,
        Event::MotionDetected,
        Event::EntryCorrect,
        Event::EntryIncorrect,
        Event::LockedOut,
        Event::LockoutExpired,
    ];
    for position in 0..6 {
        events.push(Event::KeyAccepted { symbol: '3', position });
    }
    for remaining in [0, 1, 5, 9, 10, 42, 99, 100, 255] {
        events.push(Event::LockoutCountdown { remaining });
    }
    events
}

fn led(led: Led, on: bool) -> Action {
    Action::SetLed { led, on }
}

fn sleep(millis: u64) -> Action {
    Action::Sleep { millis }
}

fn text(text: &'static str) -> Action {
    Action::WriteText { text }
}

fn cursor(row: u8, col: u8) -> Action {
    Action::SetCursor { row, col }
}

fn chase() -> Vec<Action> {
    vec![
        led(Led::Red, true),
        sleep(200),
        led(Led::Red, false),
        led(Led::Green, true),
        sleep(200),
        led(Led::Green, false),
        led(Led::Blue, true),
        sleep(200),
        led(Led::Blue, false),
    ]
}

fn attract_red() -> Vec<Action> {
    let mut v = Vec::new();
    for _ in 0..3 {
        v.extend(chase());
    }
    v.extend([led(Led::Red, true), led(Led::Green, false), led(Led::Blue, false)]);
    v
}

fn countdown_tick(digit: char) -> Vec<Action> {
    let mut v = vec![
        Action::ClearDisplay,
        cursor(0, 4),
        Action::WriteSymbol { symbol: digit },
        text(" seconds"),
    ];
    v.extend(chase());
    v.push(sleep(1000));
    v
}

#[test]
fn constants_have_their_documented_values() {
    assert_eq!(POLL_INTERVAL_MS, 100);
    assert_eq!(LED_STEP_MS, 200);
    assert_eq!(ALARM_TONE_FREQUENCY, 0xFFFF);
    assert_eq!(ALARM_TONE_DUTY, 50000);
    assert_eq!(STARTUP_COUNTDOWN, 5);
    assert_eq!(DISPLAY_ROWS, 2);
    assert_eq!(DISPLAY_COLS, 16);
}

#[test]
fn rendering_twice_gives_identical_calls() {
    let feedback = FeedbackController::new();
    for state in STATES {
        for event in events() {
            let first = feedback.render(state, event);
            let second = feedback.render(state, event);
            assert_eq!(first, second);
            let other = FeedbackController::new().render(state, event);
            assert_eq!(first, other);
        }
    }
}

#[test]
fn render_into_appends_what_render_returns() {
    let feedback = FeedbackController::new();
    for state in STATES {
        for event in events() {
            let mut out = vec![Action::ToneOff];
            feedback.render_into(state, event, &mut out);
            let mut expected = vec![Action::ToneOff];
            expected.extend(feedback.render(state, event));
            assert_eq!(out, expected);
        }
    }
}

#[test]
fn boot_script() {
    let mut expected = vec![
        led(Led::Red, false),
        led(Led::Green, false),
        led(Led::Blue, false),
        Action::ToneOff,
        sleep(500),
        Action::ClearDisplay,
        cursor(0, 0),
        text("Burglar"),
        cursor(1, 8),
        text("alarm"),
        sleep(2000),
        Action::ClearDisplay,
        cursor(0, 0),
        text("Calibrating PIR"),
        cursor(1, 0),
        text("Please wait..."),
        sleep(1500),
    ];
    for digit in ['5', '4', '3', '2', '1'] {
        expected.extend(countdown_tick(digit));
    }
    assert_eq!(
        FeedbackController::new().render(AlarmState::Booting, Event::Advance),
        expected
    );
}

#[test]
fn calibration_script() {
    let mut expected = vec![
        Action::ClearDisplay,
        cursor(0, 0),
        text("Initializing"),
        cursor(1, 5),
        text("software..."),
        sleep(1500),
    ];
    for digit in ['5', '4', '3', '2', '1'] {
        expected.extend(countdown_tick(digit));
    }
    expected.extend([
        Action::ClearDisplay,
        cursor(0, 0),
        text("Alarm"),
        cursor(1, 7),
        text("armed!"),
        led(Led::Blue, true),
        sleep(1500),
        Action::ClearDisplay,
        cursor(0, 0),
        text("Enter    custom"),
        cursor(1, 0),
        text("password :"),
        sleep(200),
        led(Led::Blue, false),
    ]);
    assert_eq!(
        FeedbackController::new().render(AlarmState::CalibratingSensor, Event::Advance),
        expected
    );
}

#[test]
fn setup_keystroke_is_echoed_with_a_beep() {
    let feedback = FeedbackController::new();
    for position in 0..4u8 {
        assert_eq!(
            feedback.render(
                AlarmState::SettingPassword,
                Event::KeyAccepted { symbol: '2', position }
            ),
            vec![
                cursor(1, 11 + position),
                Action::WriteSymbol { symbol: '2' },
                Action::SetTone { frequency: 0xFFFF, duty: 50000 },
                sleep(100),
                Action::ToneOff,
            ]
        );
    }
    assert_eq!(
        feedback.render(
            AlarmState::SettingPassword,
            Event::KeyAccepted { symbol: '4', position: 2 }
        )[0],
        cursor(1, 13)
    );
}

#[test]
fn entry_keystroke_is_echoed() {
    let feedback = FeedbackController::new();
    for position in 0..4u8 {
        assert_eq!(
            feedback.render(
                AlarmState::VerifyingPassword,
                Event::KeyAccepted { symbol: '4', position }
            ),
            vec![cursor(1, position + 1), Action::WriteSymbol { symbol: '4' }, sleep(100)]
        );
    }
    assert_eq!(
        feedback.render(
            AlarmState::VerifyingPassword,
            Event::KeyAccepted { symbol: '1', position: 2 }
        )[0],
        cursor(1, 3)
    );
}

#[test]
fn keystroke_beyond_the_password_renders_nothing() {
    let feedback = FeedbackController::new();
    for position in [4u8, 5, 200, 255] {
        for state in [AlarmState::SettingPassword, AlarmState::VerifyingPassword] {
            assert!(feedback
                .render(state, Event::KeyAccepted { symbol: '1', position })
                .is_empty());
        }
    }
}

#[test]
fn armed_script() {
    assert_eq!(
        FeedbackController::new().render(AlarmState::SettingPassword, Event::PasswordStored),
        vec![
            led(Led::Blue, true),
            sleep(1500),
            Action::ClearDisplay,
            cursor(0, 0),
            text("Waiting  for"),
            cursor(1, 7),
            text("motion..."),
            sleep(2000),
        ]
    );
}

#[test]
fn motion_alert_script() {
    let mut expected = vec![
        led(Led::Blue, false),
        Action::SetTone { frequency: 0xFFFF, duty: 50000 },
    ];
    expected.extend(attract_red());
    expected.extend([
        Action::ClearDisplay,
        cursor(0, 0),
        text("Motion alert!!!"),
        sleep(2000),
        Action::ToneOff,
        Action::ClearDisplay,
        cursor(0, 0),
        text("Enter  password:"),
    ]);
    assert_eq!(
        FeedbackController::new().render(AlarmState::Armed, Event::MotionDetected),
        expected
    );
}

#[test]
fn correct_script() {
    let mut expected = Vec::new();
    for _ in 0..3 {
        expected.extend(chase());
    }
    expected.extend([
        led(Led::Green, true),
        led(Led::Red, false),
        led(Led::Blue, false),
        Action::ClearDisplay,
        cursor(0, 0),
        text("Password correct"),
    ]);
    assert_eq!(
        FeedbackController::new().render(AlarmState::VerifyingPassword, Event::EntryCorrect),
        expected
    );
}

#[test]
fn incorrect_script() {
    let mut expected = vec![sleep(1000)];
    expected.extend(attract_red());
    expected.extend([
        Action::ClearDisplay,
        cursor(0, 0),
        text("Password "),
        cursor(1, 6),
        text("incorrect"),
        sleep(1000),
        Action::ClearDisplay,
        cursor(0, 0),
        text("Enter password:"),
    ]);
    assert_eq!(
        FeedbackController::new().render(AlarmState::VerifyingPassword, Event::EntryIncorrect),
        expected
    );
}

#[test]
fn lockout_script() {
    let mut expected = attract_red();
    expected.extend([
        sleep(1000),
        Action::ClearDisplay,
        text("Too many wrong"),
        cursor(1, 0),
        text("attempts.Wait.. "),
        sleep(1700),
        led(Led::Red, false),
    ]);
    assert_eq!(
        FeedbackController::new().render(AlarmState::VerifyingPassword, Event::LockedOut),
        expected
    );
}

#[test]
fn lockout_countdown_tick_script() {
    let mut expected = vec![
        Action::ClearDisplay,
        cursor(0, 4),
        Action::WriteSymbol { symbol: '3' },
        text(" seconds"),
        sleep(1000),
    ];
    expected.extend(chase());
    assert_eq!(
        FeedbackController::new()
            .render(AlarmState::Locked, Event::LockoutCountdown { remaining: 3 }),
        expected
    );
}

#[test]
fn countdown_number_is_written_in_decimal() {
    let feedback = FeedbackController::new();
    for remaining in 0..=255u8 {
        let actions =
            feedback.render(AlarmState::Locked, Event::LockoutCountdown { remaining });
        let written: String = actions
            .iter()
            .filter_map(|a| match a {
                Action::WriteSymbol { symbol } => Some(*symbol),
                _ => None,
            })
            .collect();
        assert_eq!(written, format!("{}", remaining));
        assert_eq!(actions[0], Action::ClearDisplay);
        assert_eq!(actions[1], cursor(0, 4));
        assert_eq!(actions[2 + written.len()], text(" seconds"));
    }
}

#[test]
fn lockout_over_script() {
    assert_eq!(
        FeedbackController::new().render(AlarmState::Locked, Event::LockoutExpired),
        vec![
            led(Led::Red, true),
            Action::ClearDisplay,
            cursor(0, 0),
            text("Enter password:"),
        ]
    );
}

#[test]
fn disarmed_script() {
    let mut expected = Vec::new();
    for (frequency, duration) in [
        (44000u16, 500u64),
        (44000, 500),
        (44000, 500),
        (34900, 350),
        (52300, 150),
        (44000, 500),
        (34900, 350),
        (52300, 150),
        (44000, 650),
    ] {
        expected.push(Action::SetTone { frequency, duty: frequency / 2 });
        expected.push(sleep(duration));
    }
    expected.extend([
        Action::ToneOff,
        Action::ClearDisplay,
        cursor(0, 0),
        text("Alarm"),
        cursor(1, 6),
        sleep(10),
        text("disarmed  "),
        sleep(3000),
        led(Led::Green, false),
        Action::ClearDisplay,
        cursor(0, 0),
        text("Waiting  for"),
        cursor(1, 7),
        text("motion..."),
        sleep(200),
        led(Led::Blue, true),
    ]);
    assert_eq!(
        FeedbackController::new().render(AlarmState::Disarmed, Event::Advance),
        expected
    );
}

#[test]
fn triggered_advance_renders_nothing() {
    assert!(FeedbackController::new().render(AlarmState::Triggered, Event::Advance).is_empty());
}

#[test]
fn pairs_the_alarm_never_produces_render_nothing() {
    let feedback = FeedbackController::new();
    assert!(feedback.render(AlarmState::Armed, Event::Advance).is_empty());
    assert!(feedback.render(AlarmState::Armed, Event::EntryCorrect).is_empty());
    assert!(feedback.render(AlarmState::Booting, Event::MotionDetected).is_empty());
    assert!(feedback.render(AlarmState::Locked, Event::EntryIncorrect).is_empty());
    assert!(feedback.render(AlarmState::Disarmed, Event::LockedOut).is_empty());
    assert!(feedback
        .render(AlarmState::Armed, Event::KeyAccepted { symbol: '1', position: 0 })
        .is_empty());
    assert!(feedback
        .render(AlarmState::VerifyingPassword, Event::LockoutCountdown { remaining: 3 })
        .is_empty());
}

#[test]
fn every_cursor_position_is_on_the_display() {
    let feedback = FeedbackController::new();
    for state in STATES {
        for event in events() {
            for action in feedback.render(state, event) {
                if let Action::SetCursor { row, col } = action {
                    assert!(row < DISPLAY_ROWS);
                    assert!(col < DISPLAY_COLS);
                }
            }
        }
    }
}

#[test]
fn every_text_fits_its_row() {
    let feedback = FeedbackController::new();
    for state in STATES {
        for event in events() {
            let mut col: usize = 0;
            for action in feedback.render(state, event) {
                match action {
                    Action::ClearDisplay => col = 0,
                    Action::SetCursor { col: c, .. } => col = c as usize,
                    Action::WriteText { text } => col += text.chars().count(),
                    Action::WriteSymbol { .. } => col += 1,
                    _ => {}
                }
                assert!(col <= DISPLAY_COLS as usize, "{:?} {:?}", state, event);
            }
        }
    }
}
