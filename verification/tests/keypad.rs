use smart_guard::keypad::{resolve_priority, KeypadScanner, KEYPAD_LINES};
use smart_guard::sensor::MotionSensor;

#[test]
fn idle_keypad_reports_nothing() {
    let scanner = KeypadScanner::new();
    assert_eq!(scanner.poll([false, false, false, false]), None);
}

#[test]
fn each_line_maps_to_its_symbol() {
    let scanner = KeypadScanner::new();
    assert_eq!(scanner.poll([true, false, false, false]), Some('1'));
    assert_eq!(scanner.poll([false, true, false, false]), Some('2'));
    assert_eq!(scanner.poll([false, false, true, false]), Some('3'));
    assert_eq!(scanner.poll([false, false, false, true]), Some('4'));
}

#[test]
fn lines_one_and_three_active_reports_line_one() {
    let scanner = KeypadScanner::new();
    assert_eq!(scanner.poll([true, false, true, false]), Some('1'));
}

#[test]
fn lowest_active_line_wins_every_contention() {
    let scanner = KeypadScanner::new();
    for mask in 1u8..16 {
        let levels = [mask & 1 != 0, mask & 2 != 0, mask & 4 != 0, mask & 8 != 0];
        let lowest = levels.iter().position(|&l| l).unwrap();
        let expected = ['1', '2', '3', '4'][lowest];
        assert_eq!(scanner.poll(levels), Some(expected), "mask {}", mask);
    }
}

#[test]
fn all_lines_active_reports_line_one() {
    let scanner = KeypadScanner::new();
    assert_eq!(scanner.poll([true, true, true, true]), Some('1'));
}

#[test]
fn held_key_is_reported_on_every_poll() {
    let scanner = KeypadScanner::new();
    for _ in 0..5 {
        assert_eq!(scanner.poll([false, false, true, false]), Some('3'));
    }
}

#[test]
fn resolve_priority_picks_lowest_index() {
    assert_eq!(resolve_priority(&[]), None);
    assert_eq!(resolve_priority(&[false]), None);
    assert_eq!(resolve_priority(&[false, false, true, true, false, true]), Some(2));
    assert_eq!(resolve_priority(&[true]), Some(0));
    assert_eq!(resolve_priority(&[false, false, false, false, false, true]), Some(5));
}

#[test]
fn symbol_exists_only_for_keypad_lines() {
    assert_eq!(KEYPAD_LINES, 4);
    assert_eq!(KeypadScanner::symbol(0), Some('1'));
    assert_eq!(KeypadScanner::symbol(1), Some('2'));
    assert_eq!(KeypadScanner::symbol(2), Some('3'));
    assert_eq!(KeypadScanner::symbol(3), Some('4'));
    assert_eq!(KeypadScanner::symbol(4), None);
    assert_eq!(KeypadScanner::symbol(usize::MAX), None);
}

#[test]
fn motion_sensor_reflects_line_level() {
    let sensor = MotionSensor::new();
    assert!(sensor.poll(true));
    assert!(!sensor.poll(false));
    assert!(sensor.poll(true));
    assert!(sensor.poll(true));
}
