//! Text helpers and the pure platform pieces.

use modelm::events::EventType;
use modelm::keyboard::is_sound_file;
use modelm::platform::{
    is_flag, quartz_event_type, register_listener, CGEventMaskBit, InputEvent, QUARTZ_FLAGS_CHANGED,
    QUARTZ_KEY_DOWN, QUARTZ_KEY_UP,
};
use modelm::text::{decimal_string, file_name_of, str_contains, str_eq};

#[test]
fn decimal_rendering() {
    assert_eq!(decimal_string(0), "0");
    assert_eq!(decimal_string(7), "7");
    assert_eq!(decimal_string(49), "49");
    assert_eq!(decimal_string(149), "149");
    assert_eq!(decimal_string(65535), "65535");
}

#[test]
fn substring_search() {
    assert!(str_contains("spacebar.wav", ".wav"));
    assert!(!str_contains("spacebar.wav", ".mp3"));
    assert!(str_contains("abc", ""));
    assert!(!str_contains("ab", "abc"));
    assert!(str_contains("xxabyy", "ab"));
}

#[test]
fn text_equality() {
    assert!(str_eq("keycode_regex", "keycode_regex"));
    assert!(!str_eq("keycode_regex", "keycode"));
    assert!(!str_eq("a", "b"));
    assert!(str_eq("", ""));
}

#[test]
fn file_name_extraction() {
    assert_eq!(file_name_of("a/b/c.wav"), "c.wav");
    assert_eq!(file_name_of("c.wav"), "c.wav");
    assert_eq!(file_name_of("a/b/"), "");
    assert_eq!(file_name_of(""), "");
}

#[test]
fn sound_file_rule() {
    assert!(is_sound_file("clicks/a.wav"));
    assert!(is_sound_file("clicks/b.mp3"));
    assert!(!is_sound_file("clicks/readme.txt"));
}

#[test]
fn modifier_codes_are_flags() {
    for code in [29, 42, 54, 56, 58, 97, 100, 125] {
        assert!(is_flag(code));
    }
    assert!(!is_flag(49));
    assert!(!is_flag(1));
}

#[test]
fn input_event_decoding() {
    let press = InputEvent { seconds: 0, microseconds: 0, etype: 1, code: 49, value: 1 };
    assert_eq!(press.to_key_event().etype, EventType::KeyDown);
    assert_eq!(press.to_key_event().code, 49);
    let release = InputEvent { seconds: 0, microseconds: 0, etype: 1, code: 49, value: 0 };
    assert_eq!(release.to_key_event().etype, EventType::KeyUp);
    let repeat = InputEvent { seconds: 0, microseconds: 0, etype: 1, code: 49, value: 2 };
    assert_eq!(repeat.to_key_event().etype, EventType::KeyDown);
    let shift = InputEvent { seconds: 0, microseconds: 0, etype: 1, code: 42, value: 1 };
    assert_eq!(shift.to_key_event().etype, EventType::FlagsChanged);
    let synthetic = InputEvent { seconds: 0, microseconds: 0, etype: 0, code: 0, value: 0 };
    assert!(!synthetic.is_key());
    assert!(press.is_key());
}

#[test]
fn quartz_mask_bits() {
    assert_eq!(CGEventMaskBit(0), 1);
    assert_eq!(CGEventMaskBit(10), 1 << 10);
    assert_eq!(CGEventMaskBit(12), 0x1000);
}

#[test]
fn quartz_event_types() {
    assert_eq!(quartz_event_type(QUARTZ_KEY_DOWN), Some(EventType::KeyDown));
    assert_eq!(quartz_event_type(QUARTZ_KEY_UP), Some(EventType::KeyUp));
    assert_eq!(quartz_event_type(QUARTZ_FLAGS_CHANGED), Some(EventType::FlagsChanged));
    assert_eq!(quartz_event_type(9), None);
}

#[test]
fn register_listener_is_a_no_op() {
    register_listener();
}
