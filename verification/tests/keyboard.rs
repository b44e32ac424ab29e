use xr_hotas::codes::{BTN_SOUTH, KEY_DOWN, KEY_LEFT, KEY_M, KEY_UP};
use xr_hotas::event::key_report;
use xr_hotas::keyboard::{KeyError, PressedKeys};

#[test]
fn a_key_the_keyboard_lacks_is_refused() {
    let mut keys = PressedKeys::new();
    assert_eq!(keys.set_key(BTN_SOUTH, true), Err(KeyError::NotEnabled));
    assert!(!keys.is_pressed(BTN_SOUTH));
}

#[test]
fn a_key_is_reported_only_when_it_changes() {
    let mut keys = PressedKeys::new();
    assert_eq!(keys.set_key(KEY_UP, true), Ok(Some(key_report(KEY_UP, true))));
    assert!(keys.is_pressed(KEY_UP));
    assert_eq!(keys.set_key(KEY_UP, true), Ok(None));
    assert_eq!(keys.set_key(KEY_UP, false), Ok(Some(key_report(KEY_UP, false))));
    assert!(!keys.is_pressed(KEY_UP));
    assert_eq!(keys.set_key(KEY_UP, false), Ok(None));
}

#[test]
fn releasing_all_lists_held_keys_in_keyboard_order() {
    let mut keys = PressedKeys::new();
    keys.set_key(KEY_DOWN, true).unwrap();
    keys.set_key(KEY_M, true).unwrap();
    keys.set_key(KEY_LEFT, true).unwrap();
    assert_eq!(keys.release_all(), vec![KEY_M, KEY_LEFT, KEY_DOWN]);
    assert!(!keys.is_pressed(KEY_M));
    assert_eq!(keys.release_all(), Vec::<u16>::new());
}

#[test]
fn held_keys_are_those_whose_last_report_was_a_press() {
    let mut keys = PressedKeys::new();
    let mut last_report: std::collections::HashMap<u16, bool> = std::collections::HashMap::new();
    let calls = [
        (KEY_UP, true), (KEY_M, true), (KEY_UP, true), (BTN_SOUTH, true), (KEY_UP, false),
        (KEY_DOWN, false), (KEY_LEFT, true), (KEY_M, true), (KEY_UP, true),
    ];
    for (key, pressed) in calls {
        if let Ok(Some(report)) = keys.set_key(key, pressed) {
            assert_eq!(report, key_report(key, pressed));
            last_report.insert(key, pressed);
        }
    }
    for key in 0u16..0x300 {
        assert_eq!(keys.is_pressed(key), last_report.get(&key) == Some(&true));
    }
}
