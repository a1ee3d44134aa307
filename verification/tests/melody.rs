use smart_guard::action::Action;
use smart_guard::melody::{Melody, Note};

#[test]
fn success_melody_notes() {
    let melody = Melody::success();
    let expected = [
        (44000, 500),
        (44000, 500),
        (44000, 500),
        (34900, 350),
        (52300, 150),
        (44000, 500),
        (34900, 350),
        (52300, 150),
        (44000, 650),
    ];
    assert_eq!(melody.len(), 9);
    for (i, (frequency, duration)) in expected.iter().enumerate() {
        assert_eq!(melody.note(i), Some(Note { frequency: *frequency, duration: *duration }));
    }
    assert_eq!(melody.note(9), None);
}

#[test]
fn success_melody_lasts_3650() {
    assert_eq!(500 + 500 + 500 + 350 + 150 + 500 + 350 + 150 + 650, 3650);
    assert_eq!(Melody::success().total_duration(), Some(3650));
}

#[test]
fn empty_melody_is_silent_and_instant() {
    let melody = Melody::new(Vec::new());
    assert_eq!(melody.len(), 0);
    assert_eq!(melody.total_duration(), Some(0));
    let mut out = Vec::new();
    melody.play(&mut out);
    assert!(out.is_empty());
}

#[test]
fn total_duration_that_overflows_is_none() {
    let melody = Melody::new(vec![
        Note { frequency: 1, duration: u64::MAX },
        Note { frequency: 1, duration: 1 },
    ]);
    assert_eq!(melody.total_duration(), None);
    let melody = Melody::new(vec![
        Note { frequency: 1, duration: u64::MAX - 1 },
        Note { frequency: 1, duration: 1 },
    ]);
    assert_eq!(melody.total_duration(), Some(u64::MAX));
}

#[test]
fn note_plays_tone_at_half_duty_then_waits() {
    let mut out = Vec::new();
    Note { frequency: 44000, duration: 500 }.play(&mut out);
    assert_eq!(
        out,
        vec![Action::SetTone { frequency: 44000, duty: 22000 }, Action::Sleep { millis: 500 }]
    );
    let mut out = Vec::new();
    Note { frequency: 52300, duration: 150 }.play(&mut out);
    assert_eq!(
        out,
        vec![Action::SetTone { frequency: 52300, duty: 26150 }, Action::Sleep { millis: 150 }]
    );
}

#[test]
fn zero_frequency_is_silence() {
    let mut out = Vec::new();
    Note { frequency: 0, duration: 250 }.play(&mut out);
    assert_eq!(out, vec![Action::ToneOff, Action::Sleep { millis: 250 }]);
}

#[test]
fn frequency_keeps_its_low_sixteen_bits() {
    let mut out = Vec::new();
    Note { frequency: 65536 + 7, duration: 1 }.play(&mut out);
    assert_eq!(out, vec![Action::SetTone { frequency: 7, duty: 3 }, Action::Sleep { millis: 1 }]);
    let mut out = Vec::new();
    Note { frequency: 65536, duration: 1 }.play(&mut out);
    assert_eq!(out, vec![Action::SetTone { frequency: 0, duty: 0 }, Action::Sleep { millis: 1 }]);
    let mut out = Vec::new();
    Note { frequency: u32::MAX, duration: 1 }.play(&mut out);
    assert_eq!(
        out,
        vec![Action::SetTone { frequency: 65535, duty: 32767 }, Action::Sleep { millis: 1 }]
    );
}

#[test]
fn play_appends_after_what_is_there() {
    let mut out = vec![Action::ClearDisplay];
    Melody::new(vec![
        Note { frequency: 100, duration: 10 },
        Note { frequency: 0, duration: 20 },
    ])
    .play(&mut out);
    assert_eq!(
        out,
        vec![
            Action::ClearDisplay,
            Action::SetTone { frequency: 100, duty: 50 },
            Action::Sleep { millis: 10 },
            Action::ToneOff,
            Action::Sleep { millis: 20 },
        ]
    );
}

#[test]
fn playing_takes_the_total_duration() {
    let melody = Melody::success();
    let mut out = Vec::new();
    melody.play(&mut out);
    assert_eq!(out.len(), 18);
    let waited: u64 = out
        .iter()
        .map(|a| match a {
            Action::Sleep { millis } => *millis,
            _ => 0,
        })
        .sum();
    assert_eq!(waited, 3650);
}
