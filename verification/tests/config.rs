//! Configuration loading: the data contract, error taxonomy, and
//! order preservation.

use modelm::config::{parse_config, parse_switch_configs, ConfigValue};
use modelm::errors::KeyboardError;
use modelm::keyboard::Keyboard;

fn load_err(config: &str) -> KeyboardError {
    match Keyboard::new().load_config_yaml(config) {
        Ok(_) => panic!("expected an error"),
        Err(e) => e,
    }
}

#[test]
fn round_trip_preserves_length_and_order() {
    let kb = Keyboard::new()
        .load_config_yaml(
            r"switches:
   -  keycode_regex: '10'
   -  keycode_regex: '20'
   -  keycode_regex: '\d+'
",
        )
        .unwrap();
    // Three entries, in document order: each code is owned by the
    // entry that was declared for it, the catch-all coming last.
    assert_eq!(kb.get_switch_index(10), Some(0));
    assert_eq!(kb.get_switch_index(20), Some(1));
    assert_eq!(kb.get_switch_index(33), Some(2));
}

#[test]
fn empty_config_is_rejected() {
    let err = load_err("");
    assert_eq!(err, KeyboardError::Config("config must not be empty".to_string()));
}

#[test]
fn missing_switches_is_rejected() {
    let err = load_err("something: else\n");
    assert_eq!(err, KeyboardError::Config("config must have Array [switches]".to_string()));
}

#[test]
fn scalar_document_is_rejected() {
    let err = load_err("just a scalar\n");
    assert_eq!(err, KeyboardError::Config("config must have Array [switches]".to_string()));
}

#[test]
fn switches_not_a_sequence_is_rejected() {
    let err = load_err("switches: 3\n");
    assert_eq!(err, KeyboardError::Config("config must have Array [switches]".to_string()));
}

#[test]
fn scalar_switch_entry_is_rejected() {
    let err = load_err("switches:\n  - 3\n");
    assert_eq!(err, KeyboardError::Config("switch must be a Hash [switch]".to_string()));
}

#[test]
fn missing_keycode_regex_is_rejected() {
    let err = load_err("switches:\n  - keydown_paths:\n      - a.wav\n");
    assert_eq!(
        err,
        KeyboardError::Config("config must have Hash [switch.keycode_regex]".to_string())
    );
}

#[test]
fn unquoted_numeric_pattern_is_rejected() {
    // An unquoted 49 scans as a number, not as pattern text.
    let err = load_err("switches:\n  - keycode_regex: 49\n");
    assert_eq!(
        err,
        KeyboardError::Config("config must have Hash [switch.keycode_regex]".to_string())
    );
}

#[test]
fn scalar_keydown_paths_is_rejected() {
    let err = load_err("switches:\n  - keycode_regex: '49'\n    keydown_paths: a.wav\n");
    assert_eq!(
        err,
        KeyboardError::Config("config must have Array [switch.keydown_paths]".to_string())
    );
}

#[test]
fn scalar_keyup_paths_is_rejected() {
    let err = load_err("switches:\n  - keycode_regex: '49'\n    keyup_paths: 7\n");
    assert_eq!(
        err,
        KeyboardError::Config("config must have Array [switch.keyup_paths]".to_string())
    );
}

#[test]
fn non_text_path_is_rejected() {
    let err = load_err("switches:\n  - keycode_regex: '49'\n    keydown_paths:\n      - 7\n");
    assert_eq!(
        err,
        KeyboardError::Config("Unable to parse path [switch.keydown_paths]".to_string())
    );
}

#[test]
fn invalid_pattern_is_a_regex_error() {
    let err = load_err("switches:\n  - keycode_regex: '('\n");
    assert!(matches!(err, KeyboardError::Regex(_)));
}

#[test]
fn unscannable_text_is_a_scan_error() {
    let err = load_err("switches: [unclosed\n");
    assert!(matches!(err, KeyboardError::ScanError(_)));
}

#[test]
fn absent_pools_mean_empty_pools() {
    let docs = parse_config("switches:\n  - keycode_regex: '49'\n").unwrap();
    let cfgs = parse_switch_configs(&docs[0]).unwrap();
    assert_eq!(cfgs.len(), 1);
    assert_eq!(cfgs[0].keycode_regex, "49");
    assert!(cfgs[0].keydown_paths.is_empty());
    assert!(cfgs[0].keyup_paths.is_empty());
}

#[test]
fn parse_config_brings_nodes_over() {
    let docs = parse_config("switches:\n  - keycode_regex: '49'\n").unwrap();
    assert_eq!(docs.len(), 1);
    match &docs[0] {
        ConfigValue::Dict(entries) => {
            assert_eq!(entries.len(), 1);
            assert_eq!(entries[0].0, ConfigValue::Str("switches".to_string()));
            assert!(matches!(entries[0].1, ConfigValue::Arr(_)));
        }
        other => panic!("document should be a mapping, got {:?}", other),
    }
}

#[test]
fn parse_switch_configs_on_handmade_document() {
    let entry = ConfigValue::Dict(vec![
        (
            ConfigValue::Str("keycode_regex".to_string()),
            ConfigValue::Str("49".to_string()),
        ),
        (
            ConfigValue::Str("keydown_paths".to_string()),
            ConfigValue::Arr(vec![
                ConfigValue::Str("one.wav".to_string()),
                ConfigValue::Str("two.wav".to_string()),
            ]),
        ),
    ]);
    let doc = ConfigValue::Dict(vec![(
        ConfigValue::Str("switches".to_string()),
        ConfigValue::Arr(vec![entry]),
    )]);
    let cfgs = parse_switch_configs(&doc).unwrap();
    assert_eq!(cfgs.len(), 1);
    assert_eq!(cfgs[0].keycode_regex, "49");
    assert_eq!(cfgs[0].keydown_paths, vec!["one.wav".to_string(), "two.wav".to_string()]);
    assert!(cfgs[0].keyup_paths.is_empty());
}

#[test]
fn numeric_keys_are_ignored_in_lookups() {
    // A mapping whose keys are not text cannot name "switches".
    let doc = ConfigValue::Dict(vec![(ConfigValue::Other, ConfigValue::Arr(vec![]))]);
    let err = parse_switch_configs(&doc).unwrap_err();
    assert_eq!(err, KeyboardError::Config("config must have Array [switches]".to_string()));
}
