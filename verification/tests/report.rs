use two_key_keyboard::matrix::{scan, KeyPosition, ScanResult};
use two_key_keyboard::report::KeyboardReport;

fn report_for(first: bool, second: bool) -> KeyboardReport {
    KeyboardReport::from_scan(&scan(&[first, second]))
}

#[test]
fn press_first_key_only() {
    assert_eq!(
        report_for(true, false),
        KeyboardReport { modifier: 0, reserved: 0, leds: 0, keycodes: [0x1f, 0, 0, 0, 0, 0] }
    );
}

#[test]
fn press_second_key_only() {
    assert_eq!(
        report_for(false, true),
        KeyboardReport { modifier: 0, reserved: 0, leds: 0, keycodes: [0x1c, 0, 0, 0, 0, 0] }
    );
}

#[test]
fn press_both_keys() {
    assert_eq!(
        report_for(true, true),
        KeyboardReport { modifier: 0, reserved: 0, leds: 0, keycodes: [0x1f, 0x1c, 0, 0, 0, 0] }
    );
}

#[test]
fn release_all_keys() {
    assert_eq!(
        report_for(false, false),
        KeyboardReport { modifier: 0, reserved: 0, leds: 0, keycodes: [0, 0, 0, 0, 0, 0] }
    );
}

#[test]
fn both_keys_held_first_line_before_second() {
    let report = report_for(true, true);
    assert_eq!(report.keycodes[0], 0x1f);
    assert_eq!(report.keycodes[1], 0x1c);
    assert_eq!(&report.keycodes[2..], &[0, 0, 0, 0]);
    assert_eq!(report.modifier, 0);
    assert_eq!(report.reserved, 0);
    assert_eq!(report.leds, 0);
}

#[test]
fn empty_report_is_all_zero() {
    let report = KeyboardReport::empty();
    assert_eq!(
        report,
        KeyboardReport { modifier: 0, reserved: 0, leds: 0, keycodes: [0; 6] }
    );
    assert_eq!(report, KeyboardReport::from_scan(&ScanResult::new()));
}

#[test]
fn report_holds_the_keycode_of_each_hit_and_zero_after() {
    for first in [false, true] {
        for second in [false, true] {
            let found = scan(&[first, second]);
            let report = KeyboardReport::from_scan(&found);
            for slot in 0..6 {
                let expected = match found.get(slot) {
                    Some(pos) => pos.keycode().unwrap(),
                    None => 0,
                };
                assert_eq!(report.keycodes[slot], expected);
            }
            assert_eq!((report.modifier, report.reserved, report.leds), (0, 0, 0));
        }
    }
}

#[test]
fn report_of_a_result_built_by_hand() {
    let mut found = ScanResult::new();
    assert!(found.record(KeyPosition { strobe: 0, sense: 1 }));
    assert_eq!(
        KeyboardReport::from_scan(&found),
        KeyboardReport { modifier: 0, reserved: 0, leds: 0, keycodes: [0x1c, 0, 0, 0, 0, 0] }
    );
}

#[test]
fn report_is_the_same_for_the_same_keys() {
    for first in [false, true] {
        for second in [false, true] {
            assert_eq!(report_for(first, second), report_for(first, second));
        }
    }
}
