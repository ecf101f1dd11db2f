//! Configuration documents and their validation.
//!
//! A configuration is scanned by the yaml crate; the resulting nodes
//! are brought over into [`ConfigValue`], the library's own form, and
//! everything from there on — locating the switch list, checking each
//! field's type, collecting the sound paths — is verified code with
//! an exact functional specification.

use vstd::prelude::*;

use crate::errors::KeyboardError;
use crate::text::str_eq;

verus! {

/// A node of a configuration document, holding exactly what the
/// loader reads: text scalars, sequences, and mappings in document
/// order. Every other node kind is `Other`.
#[derive(Debug, PartialEq, Eq)]
pub enum ConfigValue {
    /// A text scalar.
    Str(String),
    /// A sequence of nodes.
    Arr(Vec<ConfigValue>),
    /// A mapping, as key/value pairs in document order.
    Dict(Vec<(ConfigValue, ConfigValue)>),
    /// Any other node (number, boolean, null, ...).
    Other,
}

#[verifier::external_type_specification]
#[verifier::external_body]
pub struct ExYaml(yaml_rust::Yaml);

/// The library's form of one parsed yaml node: what the node holds,
/// as a [`ConfigValue`].
pub uninterp spec fn yaml_view(node: yaml_rust::Yaml) -> ConfigValue;

/// The documents the yaml scanner yields for `text`, each in the
/// library's form.
pub uninterp spec fn yaml_documents(text: Seq<char>) -> Seq<ConfigValue>;

/// Whether the yaml scanner accepts `text` at all: scanning succeeds
/// or fails on the text alone.
pub uninterp spec fn yaml_scans(text: Seq<char>) -> bool;

/// The nodes of `docs`, each in the library's form.
pub open spec fn yaml_views(docs: Seq<yaml_rust::Yaml>) -> Seq<ConfigValue> {
    docs.map_values(|node: yaml_rust::Yaml| yaml_view(node))
}

/// Relies on `yaml_rust::YamlLoader::load_from_str`: scans `text`
/// into a list of documents, succeeding exactly on scannable text
/// and reporting everything else as a scan error.
#[verifier::external_body]
fn load_yaml(text: &str) -> (result: Result<Vec<yaml_rust::Yaml>, String>)
    ensures
        result is Ok <==> yaml_scans(text@),
        result matches Ok(docs) ==> yaml_views(docs@) == yaml_documents(text@),
{
    yaml_rust::YamlLoader::load_from_str(text).map_err(|e| format!("{}", e))
}

/// Relies on the `yaml_rust::Yaml` enum: carries one node over into
/// the library's form, one arm per variant, nothing reinterpreted.
#[verifier::external_body]
fn yaml_node_value(node: &yaml_rust::Yaml) -> (value: ConfigValue)
    ensures
        value == yaml_view(*node),
{
    match node {
        yaml_rust::Yaml::String(s) => ConfigValue::Str(s.clone()),
        yaml_rust::Yaml::Array(items) => ConfigValue::Arr(
            items.iter().map(yaml_node_value).collect(),
        ),
        yaml_rust::Yaml::Hash(entries) => ConfigValue::Dict(
            entries.iter().map(|(k, v)| (yaml_node_value(k), yaml_node_value(v))).collect(),
        ),
        _ => ConfigValue::Other,
    }
}

/// Scans `text` and returns its documents in the library's form:
/// exactly the scannable texts succeed, everything else is reported
/// as a scan error.
pub fn parse_config(text: &str) -> (result: Result<Vec<ConfigValue>, KeyboardError>)
    ensures
        result is Ok <==> yaml_scans(text@),
        result matches Ok(docs) ==> docs@ == yaml_documents(text@),
        result matches Err(e) ==> e matches KeyboardError::ScanError(_),
{
    match load_yaml(text) {
        Ok(raw) => {
            let mut docs: Vec<ConfigValue> = Vec::new();
            let mut i: usize = 0;
            while i < raw.len()
                invariant
                    i <= raw@.len(),
                    docs@ == yaml_views(raw@).take(i as int),
                decreases raw@.len() - i,
            {
                let value = yaml_node_value(&raw[i]);
                docs.push(value);
                proof {
                    assert(docs@ =~= yaml_views(raw@).take(i + 1));
                }
                i += 1;
            }
            proof {
                assert(yaml_views(raw@).take(raw@.len() as int) =~= yaml_views(raw@));
            }
            Ok(docs)
        },
        Err(message) => Err(KeyboardError::ScanError(message)),
    }
}

/// The value under the first entry of `entries` whose key is the
/// text `key`, if any.
pub open spec fn dict_lookup(entries: Seq<(ConfigValue, ConfigValue)>, key: Seq<char>) -> Option<
    ConfigValue,
>
    decreases entries.len(),
{
    if entries.len() == 0 {
        None
    } else if entries[0].0 matches ConfigValue::Str(k) && k@ == key {
        Some(entries[0].1)
    } else {
        dict_lookup(entries.drop_first(), key)
    }
}

/// Looks `key` up among the entries of a mapping.
fn dict_get<'a>(entries: &'a Vec<(ConfigValue, ConfigValue)>, key: &str) -> (result: Option<
    &'a ConfigValue,
>)
    ensures
        match result {
            Some(v) => dict_lookup(entries@, key@) == Some(*v),
            None => dict_lookup(entries@, key@) is None,
        },
{
    proof {
        assert(entries@.skip(0) =~= entries@);
    }
    let mut i: usize = 0;
    while i < entries.len()
        invariant
            i <= entries@.len(),
            dict_lookup(entries@, key@) == dict_lookup(entries@.skip(i as int), key@),
        decreases entries@.len() - i,
    {
        proof {
            assert(entries@.skip(i as int)[0] == entries@[i as int]);
        }
        let hit = match &entries[i].0 {
            ConfigValue::Str(k) => str_eq(k.as_str(), key),
            _ => false,
        };
        if hit {
            return Some(&entries[i].1);
        }
        proof {
            assert(entries@.skip(i as int).drop_first() =~= entries@.skip(i as int + 1));
        }
        i += 1;
    }
    proof {
        assert(entries@.skip(entries@.len() as int) =~= Seq::<(ConfigValue, ConfigValue)>::empty());
    }
    None
}

/// One switch entry of a configuration, with every field checked:
/// the pattern text and the two pools of sound paths.
#[derive(Debug, PartialEq, Eq)]
pub struct SwitchConfig {
    /// The key-code pattern text.
    pub keycode_regex: String,
    /// The sound paths played on key presses, in document order.
    pub keydown_paths: Vec<String>,
    /// The sound paths played on key releases, in document order.
    pub keyup_paths: Vec<String>,
}

/// The mathematical form of a [`SwitchConfig`].
pub struct SwitchConfigV {
    /// The key-code pattern text.
    pub keycode_regex: Seq<char>,
    /// The sound paths played on key presses.
    pub keydown_paths: Seq<Seq<char>>,
    /// The sound paths played on key releases.
    pub keyup_paths: Seq<Seq<char>>,
}

impl View for SwitchConfig {
    type V = SwitchConfigV;

    open spec fn view(&self) -> SwitchConfigV {
        SwitchConfigV {
            keycode_regex: self.keycode_regex@,
            keydown_paths: self.keydown_paths.deep_view(),
            keyup_paths: self.keyup_paths.deep_view(),
        }
    }
}

impl DeepView for SwitchConfig {
    type V = SwitchConfigV;

    open spec fn deep_view(&self) -> SwitchConfigV {
        self.view()
    }
}

/// Error text: the document must hold a sequence under `switches`.
pub open spec fn msg_switches() -> Seq<char> {
    "config must have Array [switches]"@
}

/// Error text: a switch entry must be a mapping.
pub open spec fn msg_switch_hash() -> Seq<char> {
    "switch must be a Hash [switch]"@
}

/// Error text: a switch entry must name its pattern as text.
pub open spec fn msg_keycode_regex() -> Seq<char> {
    "config must have Hash [switch.keycode_regex]"@
}

/// Error text: a present `keydown_paths` field must be a sequence.
pub open spec fn msg_keydown_array() -> Seq<char> {
    "config must have Array [switch.keydown_paths]"@
}

/// Error text: a present `keyup_paths` field must be a sequence.
pub open spec fn msg_keyup_array() -> Seq<char> {
    "config must have Array [switch.keyup_paths]"@
}

/// Error text: every entry of `keydown_paths` must be text.
pub open spec fn msg_keydown_path() -> Seq<char> {
    "Unable to parse path [switch.keydown_paths]"@
}

/// Error text: every entry of `keyup_paths` must be text.
pub open spec fn msg_keyup_path() -> Seq<char> {
    "Unable to parse path [switch.keyup_paths]"@
}

/// The texts of `items`, if every item is a text scalar.
pub open spec fn spec_parse_paths(items: Seq<ConfigValue>) -> Option<Seq<Seq<char>>>
    decreases items.len(),
{
    if items.len() == 0 {
        Some(Seq::empty())
    } else {
        match items[0] {
            ConfigValue::Str(s) => match spec_parse_paths(items.drop_first()) {
                Some(rest) => Some(seq![s@] + rest),
                None => None,
            },
            _ => None,
        }
    }
}

/// One sound pool of a switch entry: absent means empty; present, it
/// must be a sequence (else `arr_msg`) of texts (else `path_msg`).
pub open spec fn spec_parse_pool(
    entries: Seq<(ConfigValue, ConfigValue)>,
    key: Seq<char>,
    arr_msg: Seq<char>,
    path_msg: Seq<char>,
) -> Result<Seq<Seq<char>>, Seq<char>> {
    match dict_lookup(entries, key) {
        None => Ok(Seq::empty()),
        Some(value) => match value {
            ConfigValue::Arr(items) => match spec_parse_paths(items@) {
                Some(paths) => Ok(paths),
                None => Err(path_msg),
            },
            _ => Err(arr_msg),
        },
    }
}

/// One switch entry: a mapping whose `keycode_regex` is text, with
/// two optional pools of sound paths.
pub open spec fn spec_parse_entry(value: ConfigValue) -> Result<SwitchConfigV, Seq<char>> {
    match value {
        ConfigValue::Dict(entries) => match dict_lookup(entries@, "keycode_regex"@) {
            Some(ConfigValue::Str(s)) => match spec_parse_pool(
                entries@,
                "keydown_paths"@,
                msg_keydown_array(),
                msg_keydown_path(),
            ) {
                Ok(keydown_paths) => match spec_parse_pool(
                    entries@,
                    "keyup_paths"@,
                    msg_keyup_array(),
                    msg_keyup_path(),
                ) {
                    Ok(keyup_paths) => Ok(
                        SwitchConfigV { keycode_regex: s@, keydown_paths, keyup_paths },
                    ),
                    Err(m) => Err(m),
                },
                Err(m) => Err(m),
            },
            _ => Err(msg_keycode_regex()),
        },
        _ => Err(msg_switch_hash()),
    }
}

/// The switch entries of `items` in order; the first malformed entry
/// decides the error.
pub open spec fn spec_parse_entries(items: Seq<ConfigValue>) -> Result<
    Seq<SwitchConfigV>,
    Seq<char>,
>
    decreases items.len(),
{
    if items.len() == 0 {
        Ok(Seq::empty())
    } else {
        match spec_parse_entry(items[0]) {
            Ok(cfg) => match spec_parse_entries(items.drop_first()) {
                Ok(rest) => Ok(seq![cfg] + rest),
                Err(m) => Err(m),
            },
            Err(m) => Err(m),
        }
    }
}

/// A whole document: a mapping whose `switches` key holds the
/// sequence of switch entries, kept in document order.
pub open spec fn spec_parse_document(doc: ConfigValue) -> Result<Seq<SwitchConfigV>, Seq<char>> {
    match doc {
        ConfigValue::Dict(entries) => match dict_lookup(entries@, "switches"@) {
            Some(ConfigValue::Arr(items)) => spec_parse_entries(items@),
            _ => Err(msg_switches()),
        },
        _ => Err(msg_switches()),
    }
}

/// Builds a configuration error carrying `msg`.
fn config_error(msg: &str) -> (e: KeyboardError)
    ensures
        e matches KeyboardError::Config(m) && m@ == msg@,
{
    KeyboardError::Config(msg.to_owned())
}

/// Collects the path texts of `items`, or reports the first item
/// that is not text.
fn parse_paths(items: &Vec<ConfigValue>) -> (result: Option<Vec<String>>)
    ensures
        match result {
            Some(paths) => spec_parse_paths(items@) == Some(paths.deep_view()),
            None => spec_parse_paths(items@) is None,
        },
{
    let mut paths: Vec<String> = Vec::new();
    proof {
        assert(paths.deep_view() =~= Seq::<Seq<char>>::empty());
        assert(items@.skip(0) =~= items@);
        assert(paths.deep_view() + spec_parse_paths(items@)->Some_0 =~= spec_parse_paths(
            items@,
        )->Some_0);
    }
    let mut i: usize = 0;
    while i < items.len()
        invariant
            i <= items@.len(),
            spec_parse_paths(items@) == (match spec_parse_paths(items@.skip(i as int)) {
                Some(rest) => Some(paths.deep_view() + rest),
                None => None::<Seq<Seq<char>>>,
            }),
        decreases items@.len() - i,
    {
        proof {
            assert(items@.skip(i as int)[0] == items@[i as int]);
            assert(items@.skip(i as int).drop_first() =~= items@.skip(i as int + 1));
        }
        let ghost prefix = paths.deep_view();
        match &items[i] {
            ConfigValue::Str(s) => {
                paths.push(s.clone());
                proof {
                    assert(paths.deep_view() =~= prefix.push(s@));
                    assert forall|rest: Seq<Seq<char>>|
                        prefix + (seq![s@] + rest) =~= paths.deep_view() + rest by {
                        assert(prefix + (seq![s@] + rest) =~= prefix.push(s@) + rest);
                    }
                }
            },
            _ => {
                return None;
            },
        }
        i += 1;
    }
    proof {
        assert(items@.skip(items@.len() as int) =~= Seq::<ConfigValue>::empty());
        assert(paths.deep_view() + Seq::<Seq<char>>::empty() =~= paths.deep_view());
    }
    Some(paths)
}

/// Reads one sound pool of a switch entry.
fn parse_pool(
    entries: &Vec<(ConfigValue, ConfigValue)>,
    key: &str,
    arr_msg: &str,
    path_msg: &str,
) -> (result: Result<Vec<String>, KeyboardError>)
    ensures
        match result {
            Ok(paths) => spec_parse_pool(entries@, key@, arr_msg@, path_msg@) == Ok::<
                Seq<Seq<char>>,
                Seq<char>,
            >(paths.deep_view()),
            Err(e) => spec_parse_pool(entries@, key@, arr_msg@, path_msg@) matches Err(m)
                && e matches KeyboardError::Config(mm) && mm@ == m,
        },
{
    match dict_get(entries, key) {
        None => {
            let paths: Vec<String> = Vec::new();
            proof {
                assert(paths.deep_view() =~= Seq::<Seq<char>>::empty());
            }
            Ok(paths)
        },
        Some(value) => match value {
            ConfigValue::Arr(items) => match parse_paths(items) {
                Some(paths) => Ok(paths),
                None => Err(config_error(path_msg)),
            },
            _ => Err(config_error(arr_msg)),
        },
    }
}

/// Validates one switch entry of the document.
pub fn parse_switch_entry(value: &ConfigValue) -> (result: Result<SwitchConfig, KeyboardError>)
    ensures
        match result {
            Ok(cfg) => spec_parse_entry(*value) == Ok::<SwitchConfigV, Seq<char>>(cfg@),
            Err(e) => spec_parse_entry(*value) matches Err(m) && e matches KeyboardError::Config(
                mm,
            ) && mm@ == m,
        },
{
    match value {
        ConfigValue::Dict(entries) => {
            let keycode_regex: String = match dict_get(entries, "keycode_regex") {
                Some(v) => match v {
                    ConfigValue::Str(s) => s.clone(),
                    _ => {
                        return Err(config_error("config must have Hash [switch.keycode_regex]"));
                    },
                },
                None => {
                    return Err(config_error("config must have Hash [switch.keycode_regex]"));
                },
            };
            let keydown_paths = match parse_pool(
                entries,
                "keydown_paths",
                "config must have Array [switch.keydown_paths]",
                "Unable to parse path [switch.keydown_paths]",
            ) {
                Ok(paths) => paths,
                Err(e) => {
                    return Err(e);
                },
            };
            let keyup_paths = match parse_pool(
                entries,
                "keyup_paths",
                "config must have Array [switch.keyup_paths]",
                "Unable to parse path [switch.keyup_paths]",
            ) {
                Ok(paths) => paths,
                Err(e) => {
                    return Err(e);
                },
            };
            Ok(SwitchConfig { keycode_regex, keydown_paths, keyup_paths })
        },
        _ => Err(config_error("switch must be a Hash [switch]")),
    }
}

/// Validates a whole configuration document into its switch entries,
/// kept in document order.
pub fn parse_switch_configs(doc: &ConfigValue) -> (result: Result<Vec<SwitchConfig>, KeyboardError>)
    ensures
        match result {
            Ok(cfgs) => spec_parse_document(*doc) == Ok::<Seq<SwitchConfigV>, Seq<char>>(
                cfgs.deep_view(),
            ),
            Err(e) => spec_parse_document(*doc) matches Err(m) && e matches KeyboardError::Config(
                mm,
            ) && mm@ == m,
        },
{
    let items: &Vec<ConfigValue> = match doc {
        ConfigValue::Dict(entries) => match dict_get(entries, "switches") {
            Some(v) => match v {
                ConfigValue::Arr(items) => items,
                _ => {
                    return Err(config_error("config must have Array [switches]"));
                },
            },
            None => {
                return Err(config_error("config must have Array [switches]"));
            },
        },
        _ => {
            return Err(config_error("config must have Array [switches]"));
        },
    };
    proof {
        assert(spec_parse_document(*doc) == spec_parse_entries(items@));
    }
    let mut cfgs: Vec<SwitchConfig> = Vec::new();
    proof {
        assert(cfgs.deep_view() =~= Seq::<SwitchConfigV>::empty());
        assert(items@.skip(0) =~= items@);
        assert(cfgs.deep_view() + spec_parse_entries(items@)->Ok_0 =~= spec_parse_entries(
            items@,
        )->Ok_0);
    }
    let mut i: usize = 0;
    while i < items.len()
        invariant
            i <= items@.len(),
            spec_parse_document(*doc) == spec_parse_entries(items@),
            spec_parse_entries(items@) == (match spec_parse_entries(items@.skip(i as int)) {
                Ok(rest) => Ok::<Seq<SwitchConfigV>, Seq<char>>(cfgs.deep_view() + rest),
                Err(m) => Err(m),
            }),
        decreases items@.len() - i,
    {
        proof {
            assert(items@.skip(i as int)[0] == items@[i as int]);
            assert(items@.skip(i as int).drop_first() =~= items@.skip(i as int + 1));
        }
        let ghost prefix = cfgs.deep_view();
        match parse_switch_entry(&items[i]) {
            Ok(cfg) => {
                let ghost cfg_view = cfg@;
                cfgs.push(cfg);
                proof {
                    assert(cfgs.deep_view() =~= prefix.push(cfg_view));
                    assert forall|rest: Seq<SwitchConfigV>|
                        prefix + (seq![cfg_view] + rest) =~= cfgs.deep_view() + rest by {
                        assert(prefix + (seq![cfg_view] + rest) =~= prefix.push(cfg_view) + rest);
                    }
                }
            },
            Err(e) => {
                proof {
                    assert(spec_parse_entries(items@.skip(i as int)) is Err);
                }
                return Err(e);
            },
        }
        i += 1;
    }
    proof {
        assert(items@.skip(items@.len() as int) =~= Seq::<ConfigValue>::empty());
        assert(cfgs.deep_view() + Seq::<SwitchConfigV>::empty() =~= cfgs.deep_view());
    }
    Ok(cfgs)
}

} // verus!
