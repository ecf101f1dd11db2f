//! Event routing: repeat absorption, state tracking, and the
//! end-to-end dispatch scenarios.

use modelm::events::{EventType, KeyEvent};
use modelm::keyboard::Keyboard;
use modelm::keyboard::KeyboardOptions;

const CONFIG_A_B: &str = r"switches:
   -  keycode_regex: '49'
      keydown_paths:
        - spacebar.wav
   -  keycode_regex: '\d+'
      keydown_paths:
        - 1_.wav
      keyup_paths:
        - 1_up.wav
";

fn down(code: u16) -> KeyEvent {
    KeyEvent { etype: EventType::KeyDown, code }
}

fn up(code: u16) -> KeyEvent {
    KeyEvent { etype: EventType::KeyUp, code }
}

#[test]
#[allow(non_snake_case)]
fn keyboard_create_OK() -> () {
    let _ = Keyboard::new().load_config_yaml(
        r"switches:
   -  keycode_regex: '49'
      keydown_paths:
        - spacebar.wav
      keyup_paths:
        - spacebar.wav
   -  keycode_regex: '\d+'
      keydown_paths:
        - 1_.wav
",
    );
}

#[test]
fn repeated_keydown_dispatches_once() {
    let mut kb = Keyboard::new().load_config_yaml(CONFIG_A_B).unwrap();
    let first = kb.handle_event(down(49));
    let second = kb.handle_event(down(49));
    let third = kb.handle_event(down(49));
    assert!(first.is_some());
    assert_eq!(first.unwrap().name, "spacebar.wav");
    assert!(second.is_none());
    assert!(third.is_none());
}

#[test]
fn unmatched_keyup_is_absorbed() {
    let mut kb = Keyboard::new().load_config_yaml(CONFIG_A_B).unwrap();
    let stray = kb.handle_event(up(49));
    assert!(stray.is_none());
    // The tracker is uncorrupted: a fresh press still dispatches.
    let press = kb.handle_event(down(49));
    assert!(press.is_some());
}

#[test]
fn first_match_wins() {
    let kb = Keyboard::new().load_config_yaml(CONFIG_A_B).unwrap();
    // Code 49 is owned by the first switch, never the second.
    assert_eq!(kb.get_switch_index(49), Some(0));
    let dispatched = kb.call_event_handler(down(49));
    assert_eq!(dispatched.unwrap().name, "spacebar.wav");
    // Any other digit falls through to the catch-all digits switch.
    assert_eq!(kb.get_switch_index(7), Some(1));
}

#[test]
fn empty_pool_dispatches_nothing() {
    let mut kb = Keyboard::new().load_config_yaml(CONFIG_A_B).unwrap();
    // Switch A matches code 49 first but has no key-up pool.
    let press = kb.handle_event(down(49));
    assert!(press.is_some());
    let release = kb.handle_event(up(49));
    assert!(release.is_none());
}

#[test]
fn keydown_selects_from_nonempty_pool() {
    let mut kb = Keyboard::new()
        .load_config_yaml(
            "switches:\n  - keycode_regex: '\\d+'\n    keydown_paths:\n      - 1_.wav\n",
        )
        .unwrap();
    let press = kb.handle_event(down(1));
    assert_eq!(press.unwrap().name, "1_.wav");
}

#[test]
fn pair_processed_twice_dispatches_twice() {
    let mut kb = Keyboard::new().load_config_yaml(CONFIG_A_B).unwrap();
    let mut dispatched = 0;
    for _ in 0..2 {
        if kb.handle_event(down(7)).is_some() {
            dispatched += 1;
        }
        if kb.handle_event(up(7)).is_some() {
            dispatched += 1;
        }
    }
    assert_eq!(dispatched, 4);
}

#[test]
fn end_to_end_scenario() {
    let mut kb = Keyboard::new().load_config_yaml(CONFIG_A_B).unwrap();
    let r1 = kb.handle_event(down(49));
    let r2 = kb.handle_event(up(49));
    let r3 = kb.handle_event(down(7));
    let r4 = kb.handle_event(up(7));
    assert_eq!(r1.unwrap().name, "spacebar.wav");
    // Key-up of 49 still matches switch A, whose key-up pool is empty.
    assert!(r2.is_none());
    assert_eq!(r3.unwrap().name, "1_.wav");
    assert_eq!(r4.unwrap().name, "1_up.wav");
}

#[test]
fn modifier_events_dropped_by_default() {
    let mut kb = Keyboard::new().load_config_yaml(CONFIG_A_B).unwrap();
    let flags = KeyEvent { etype: EventType::FlagsChanged, code: 49 };
    assert!(kb.handle_event(flags).is_none());
}

#[test]
fn modifier_events_routed_when_enabled() {
    let options = KeyboardOptions { x_scale_milli: 1000, volume_milli: 1000, modifier_keys: true };
    let mut kb = Keyboard::with_options(options).load_config_yaml(CONFIG_A_B).unwrap();
    // Routed, but a modifier change plays from no pool.
    let flags = KeyEvent { etype: EventType::FlagsChanged, code: 49 };
    assert!(kb.handle_event(flags).is_none());
    // The tracker was not touched: a press of the same code dispatches.
    assert!(kb.handle_event(down(49)).is_some());
}

#[test]
fn playback_carries_volume_and_pan() {
    let mut kb = Keyboard::new()
        .set_volume(500)
        .set_x_scale(2000)
        .load_config_yaml(CONFIG_A_B)
        .unwrap();
    let press = kb.handle_event(down(49)).unwrap();
    assert_eq!(press.volume_milli, 500);
    // -(25 - 49) * 2.0, in thousandths over the pan denominator.
    assert_eq!(press.pan_numerator, (49 - 25) * 2000);
    assert_eq!(modelm::switch::PAN_DENOMINATOR, 300000);
}

#[test]
fn options_default_values() {
    let options = KeyboardOptions::default();
    assert_eq!(options.x_scale_milli, 1000);
    assert_eq!(options.volume_milli, 1000);
    assert!(!options.modifier_keys);
}

#[test]
fn add_default_handler_filters_sound_files() {
    let paths = vec![
        "clicks/a.wav".to_string(),
        "clicks/readme.txt".to_string(),
        "clicks/c.mp3".to_string(),
    ];
    let mut kb = Keyboard::new().add_default_handler(&paths).unwrap();
    // The catch-all switch owns every code.
    assert_eq!(kb.get_switch_index(12345), Some(0));
    let press = kb.handle_event(down(1)).unwrap();
    assert!(press.name == "a.wav" || press.name == "c.mp3");
    assert!(press.path == "clicks/a.wav" || press.path == "clicks/c.mp3");
}
