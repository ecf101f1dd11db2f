//! Switches in isolation: pattern matching over decimal key codes,
//! sound pools, and playback parameters.

use modelm::config::{parse_config, parse_switch_configs};
use modelm::events::{EventType, KeyEvent};
use modelm::keyboard::KeyboardOptions;
use modelm::pattern::KeyPattern;
use modelm::switch::{Switch, SwitchSound};

fn switch_from(config: &str) -> Switch {
    let docs = parse_config(config).unwrap();
    let cfgs = parse_switch_configs(&docs[0]).unwrap();
    Switch::from_config(&cfgs[0]).unwrap()
}

#[test]
fn handles_matches_decimal_text() {
    let sw = switch_from("switches:\n  - keycode_regex: '49'\n");
    assert!(sw.handles(49));
    assert!(!sw.handles(50));
    // The search is not anchored: "149" contains "49".
    assert!(sw.handles(149));
}

#[test]
fn digits_pattern_matches_every_code() {
    let sw = switch_from("switches:\n  - keycode_regex: '\\d+'\n");
    assert!(sw.handles(0));
    assert!(sw.handles(1));
    assert!(sw.handles(65535));
}

#[test]
fn default_switch_matches_everything() {
    let sw = Switch::new();
    assert!(sw.handles(0));
    assert!(sw.handles(42));
    assert!(sw.handles(65535));
}

#[test]
fn invalid_pattern_fails_at_load_time() {
    assert!(KeyPattern::new("[").is_err());
    assert!(KeyPattern::new("49").is_ok());
}

#[test]
fn handle_event_uses_the_pool_of_the_event_kind() {
    let sw = switch_from(
        "switches:\n  - keycode_regex: '\\d+'\n    keydown_paths:\n      - d.wav\n    keyup_paths:\n      - u.wav\n",
    );
    let options = KeyboardOptions::default();
    let press = sw.handle_event(KeyEvent { etype: EventType::KeyDown, code: 30 }, &options);
    let release = sw.handle_event(KeyEvent { etype: EventType::KeyUp, code: 30 }, &options);
    assert_eq!(press.unwrap().name, "d.wav");
    assert_eq!(release.unwrap().name, "u.wav");
}

#[test]
fn handle_event_empty_pool_is_silent() {
    let sw = switch_from("switches:\n  - keycode_regex: '\\d+'\n");
    let options = KeyboardOptions::default();
    let press = sw.handle_event(KeyEvent { etype: EventType::KeyDown, code: 30 }, &options);
    assert!(press.is_none());
}

#[test]
fn handle_event_modifier_change_is_silent() {
    let sw = switch_from(
        "switches:\n  - keycode_regex: '\\d+'\n    keydown_paths:\n      - d.wav\n",
    );
    let options = KeyboardOptions::default();
    let flags = sw.handle_event(KeyEvent { etype: EventType::FlagsChanged, code: 30 }, &options);
    assert!(flags.is_none());
}

#[test]
fn pan_formula_exact_values() {
    let sw = switch_from(
        "switches:\n  - keycode_regex: '\\d+'\n    keydown_paths:\n      - d.wav\n",
    );
    let options = KeyboardOptions::default();
    // -(25 - code) * x_scale / 300 with everything in thousandths:
    // code 1 sits left of the reference key 25, code 49 right of it.
    let left = sw.handle_event(KeyEvent { etype: EventType::KeyDown, code: 1 }, &options);
    assert_eq!(left.unwrap().pan_numerator, (1 - 25) * 1000);
    let right = sw.handle_event(KeyEvent { etype: EventType::KeyDown, code: 49 }, &options);
    assert_eq!(right.unwrap().pan_numerator, (49 - 25) * 1000);
}

#[test]
fn random_selection_stays_in_the_pool() {
    let sw = switch_from(
        "switches:\n  - keycode_regex: '\\d+'\n    keydown_paths:\n      - a.wav\n      - b.wav\n      - c.wav\n",
    );
    let options = KeyboardOptions::default();
    for _ in 0..50 {
        let press = sw
            .handle_event(KeyEvent { etype: EventType::KeyDown, code: 30 }, &options)
            .unwrap();
        assert!(press.sound_index < 3);
        assert!(["a.wav", "b.wav", "c.wav"].contains(&press.name.as_str()));
    }
}

#[test]
fn sound_names_come_from_file_names() {
    let sound = SwitchSound::from_path("resources/modelm/spacebar.wav");
    assert_eq!(sound.name, "spacebar.wav");
    assert_eq!(sound.path, "resources/modelm/spacebar.wav");
}

#[test]
fn builder_loads_pools_in_order() {
    let sw = Switch::new();
    let sw = sw.load_sound_keydown("a.wav").unwrap();
    let sw = sw.load_sound_keydown("b.wav").unwrap();
    let sw = sw.load_sound_keyup("c.wav").unwrap();
    assert_eq!(sw.sounds_keydown.len(), 2);
    assert_eq!(sw.sounds_keydown[0].name, "a.wav");
    assert_eq!(sw.sounds_keydown[1].name, "b.wav");
    assert_eq!(sw.sounds_keyup.len(), 1);
    assert_eq!(sw.sounds_keyup[0].name, "c.wav");
}

#[test]
fn with_keycode_regex_replaces_the_pattern() {
    let pattern = KeyPattern::new("^49$").unwrap();
    let sw = Switch::new().with_keycode_regex(pattern);
    assert!(sw.handles(49));
    // Anchored now: "149" no longer matches.
    assert!(!sw.handles(149));
}
