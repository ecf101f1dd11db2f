//! Switches: ordered rules binding a key-code pattern to sound pools.
//!
//! A switch owns two independent pools of sounds — one for presses,
//! one for releases — and matches key codes through the decimal text
//! of the code. Handling an event computes a playback request: which
//! sound to play, at what volume, and how far left or right. The
//! audio backend itself lives outside the library and consumes the
//! request.

use vstd::prelude::*;

use crate::config::{parse_switch_entry, spec_parse_entry, ConfigValue, SwitchConfig, SwitchConfigV};
use crate::errors::KeyboardError;
use crate::events::{EventType, KeyCode, KeyEvent};
use crate::keyboard::KeyboardOptions;
use crate::pattern::{regex_compiles, regex_match, KeyPattern};
use crate::text::{decimal_string, file_name_of, spec_decimal_chars, spec_file_name};

verus! {

/// One sound of a switch's pool: the path it is loaded from and its
/// display name (the file name part of the path).
#[derive(Debug, PartialEq, Eq)]
pub struct SwitchSound {
    /// Display name: the file name part of the path.
    pub name: String,
    /// The path of the sound resource.
    pub path: String,
}

impl SwitchSound {
    /// Describes the sound resource at `path`. The display name is
    /// the text after the last `/` of the path, by the plain textual
    /// rule of [`spec_file_name`]: a corner path such as one ending
    /// in `/` gets an empty name rather than an error, since the
    /// name serves display and debugging only.
    pub fn from_path(path: &str) -> (sound: SwitchSound)
        ensures
            sound.name@ == spec_file_name(path@),
            sound.path@ == path@,
    {
        SwitchSound { name: file_name_of(path), path: path.to_owned() }
    }
}

/// A spatial offset, in thousandths of the audio backend's unit.
#[derive(Debug, Clone, Copy, PartialEq, Eq, Structural)]
pub struct Position {
    /// Left/right offset, in thousandths.
    pub x_milli: i64,
    /// Up/down offset, in thousandths.
    pub y_milli: i64,
    /// Depth offset, in thousandths.
    pub z_milli: i64,
}

/// The default spatial reference position: one unit ahead.
pub open spec fn spec_default_position() -> Position {
    (Position { x_milli: 0, y_milli: 0, z_milli: 1000 })
}

/// A playback request: everything the audio backend needs for one
/// dispatched event.
#[derive(Debug, PartialEq, Eq)]
pub struct Playback {
    /// Index of the chosen sound within its pool.
    pub sound_index: usize,
    /// Display name of the chosen sound.
    pub name: String,
    /// Path of the chosen sound.
    pub path: String,
    /// Numerator of the stereo pan offset, over [`PAN_DENOMINATOR`].
    pub pan_numerator: i64,
    /// Playback volume, in thousandths.
    pub volume_milli: u32,
}

/// The denominator of [`Playback::pan_numerator`]: the divisor 300
/// of the pan rule, scaled by the thousandths the library counts in.
pub const PAN_DENOMINATOR: i64 = 300000;

/// The pan numerator for a key code: `-(25 - code)` scaled by the
/// pan multiplier, still to be divided by [`PAN_DENOMINATOR`].
pub open spec fn spec_pan_numerator(code: KeyCode, x_scale_milli: i32) -> int {
    (code - 25) * x_scale_milli
}

/// Computes the pan numerator; the product always fits, since a key
/// code is 16 bits wide and the multiplier 32.
pub fn pan_numerator(code: KeyCode, x_scale_milli: i32) -> (pan: i64)
    ensures
        pan == spec_pan_numerator(code, x_scale_milli),
{
    let c: i64 = code as i64 - 25;
    let s: i64 = x_scale_milli as i64;
    proof {
        assert(-0x10000000000000 < c * s < 0x10000000000000) by (nonlinear_arith)
            requires
                -65536 < c < 65536,
                -0x100000000 < s < 0x100000000,
        ;
    }
    c * s
}

/// Relies on `rand::Rng::gen_range`: draws an index below `len`,
/// uniformly; the range must not be empty.
#[verifier::external_body]
fn random_index(len: usize) -> (index: usize)
    requires
        len > 0,
    ensures
        index < len,
{
    rand::Rng::gen_range(&mut rand::thread_rng(), 0..len)
}

/// What handling one event against one pool must yield: nothing for
/// an empty pool, otherwise one of the pool's sounds with the pan
/// and volume the options prescribe.
pub open spec fn spec_pool_response(
    pool: Seq<SwitchSound>,
    code: KeyCode,
    options: KeyboardOptions,
    response: Option<Playback>,
) -> bool {
    if pool.len() == 0 {
        response is None
    } else {
        &&& response matches Some(p)
        &&& p.sound_index < pool.len()
        &&& p.name == pool[p.sound_index as int].name
        &&& p.path == pool[p.sound_index as int].path
        &&& p.pan_numerator == spec_pan_numerator(code, options.x_scale_milli)
        &&& p.volume_milli == options.volume_milli
    }
}

/// Draws a sound from `pool` and fills in the playback parameters.
fn pick_from_pool(pool: &Vec<SwitchSound>, pan: i64, volume_milli: u32) -> (response: Option<
    Playback,
>)
    ensures
        match response {
            Some(p) => {
                &&& pool@.len() > 0
                &&& p.sound_index < pool@.len()
                &&& p.name == pool@[p.sound_index as int].name
                &&& p.path == pool@[p.sound_index as int].path
                &&& p.pan_numerator == pan
                &&& p.volume_milli == volume_milli
            },
            None => pool@.len() == 0,
        },
{
    if pool.len() == 0 {
        None
    } else {
        let index = random_index(pool.len());
        Some(
            Playback {
                sound_index: index,
                name: pool[index].name.clone(),
                path: pool[index].path.clone(),
                pan_numerator: pan,
                volume_milli,
            },
        )
    }
}

/// An ordered rule: a key-code pattern, two sound pools, and a
/// spatial reference position.
pub struct Switch {
    /// Sounds played when a matched key goes down.
    pub sounds_keydown: Vec<SwitchSound>,
    /// Sounds played when a matched key comes up.
    pub sounds_keyup: Vec<SwitchSound>,
    /// The pattern applied to the decimal text of a key code.
    pub keycode_regex: KeyPattern,
    /// The spatial reference position of this switch.
    pub position: Position,
}

impl Switch {
    /// Whether this switch owns `code`: its pattern finds a match in
    /// the decimal text of the code.
    pub open spec fn spec_handles(self, code: KeyCode) -> bool {
        regex_match(self.keycode_regex.src(), spec_decimal_chars(code as nat))
    }

    /// A switch with empty pools whose pattern matches every code.
    pub fn new() -> (sw: Switch)
        ensures
            sw.sounds_keydown@.len() == 0,
            sw.sounds_keyup@.len() == 0,
            sw.keycode_regex.src() == ".*"@,
            forall|text: Seq<char>| regex_match(sw.keycode_regex.src(), text),
            sw.position == spec_default_position(),
    {
        Switch {
            sounds_keydown: Vec::new(),
            sounds_keyup: Vec::new(),
            keycode_regex: KeyPattern::match_all(),
            position: Position { x_milli: 0, y_milli: 0, z_milli: 1000 },
        }
    }

    /// Replaces the key-code pattern, keeping everything else.
    pub fn with_keycode_regex(self, pattern: KeyPattern) -> (sw: Switch)
        ensures
            sw.keycode_regex == pattern,
            sw.sounds_keydown == self.sounds_keydown,
            sw.sounds_keyup == self.sounds_keyup,
            sw.position == self.position,
    {
        Switch { keycode_regex: pattern, ..self }
    }

    /// Appends the sound at `path` to the key-down pool.
    pub fn load_sound_keydown(self, path: &str) -> (result: Result<Switch, KeyboardError>)
        ensures
            result matches Ok(sw) && {
                &&& sw.sounds_keydown@.len() == self.sounds_keydown@.len() + 1
                &&& sw.sounds_keydown@.drop_last() == self.sounds_keydown@
                &&& sw.sounds_keydown@.last().name@ == spec_file_name(path@)
                &&& sw.sounds_keydown@.last().path@ == path@
                &&& sw.sounds_keyup == self.sounds_keyup
                &&& sw.keycode_regex == self.keycode_regex
                &&& sw.position == self.position
            },
    {
        let mut sw = self;
        sw.sounds_keydown.push(SwitchSound::from_path(path));
        proof {
            assert(sw.sounds_keydown@.drop_last() =~= self.sounds_keydown@);
        }
        Ok(sw)
    }

    /// Appends the sound at `path` to the key-up pool.
    pub fn load_sound_keyup(self, path: &str) -> (result: Result<Switch, KeyboardError>)
        ensures
            result matches Ok(sw) && {
                &&& sw.sounds_keyup@.len() == self.sounds_keyup@.len() + 1
                &&& sw.sounds_keyup@.drop_last() == self.sounds_keyup@
                &&& sw.sounds_keyup@.last().name@ == spec_file_name(path@)
                &&& sw.sounds_keyup@.last().path@ == path@
                &&& sw.sounds_keydown == self.sounds_keydown
                &&& sw.keycode_regex == self.keycode_regex
                &&& sw.position == self.position
            },
    {
        let mut sw = self;
        sw.sounds_keyup.push(SwitchSound::from_path(path));
        proof {
            assert(sw.sounds_keyup@.drop_last() =~= self.sounds_keyup@);
        }
        Ok(sw)
    }

    /// Applies this switch's pattern to the decimal text of `code`.
    pub fn handles(&self, code: KeyCode) -> (matched: bool)
        ensures
            matched == self.spec_handles(code),
    {
        let text = decimal_string(code);
        self.keycode_regex.is_match(text.as_str())
    }

    /// Handles one event: picks a sound from the pool of the event's
    /// kind and computes the playback parameters. An empty pool, or a
    /// modifier change, yields no request.
    pub fn handle_event(&self, event: KeyEvent, options: &KeyboardOptions) -> (response: Option<
        Playback,
    >)
        ensures
            spec_switch_response(*self, event, *options, response),
    {
        let pan = pan_numerator(event.code, options.x_scale_milli);
        match event.etype {
            EventType::KeyDown => pick_from_pool(&self.sounds_keydown, pan, options.volume_milli),
            EventType::KeyUp => pick_from_pool(&self.sounds_keyup, pan, options.volume_milli),
            EventType::FlagsChanged => None,
        }
    }
}

/// Whether `pool` holds one sound per path of `paths`, in order,
/// each named after the file name part of its path.
pub open spec fn spec_pool_from(pool: Seq<SwitchSound>, paths: Seq<Seq<char>>) -> bool {
    &&& pool.len() == paths.len()
    &&& forall|i: int|
        0 <= i < pool.len() ==> (#[trigger] pool[i]).path@ == paths[i] && pool[i].name@
            == spec_file_name(paths[i])
}

/// Whether `sw` is the switch that the validated configuration entry
/// `cfg` describes.
pub open spec fn spec_built_from(sw: Switch, cfg: SwitchConfigV) -> bool {
    &&& sw.keycode_regex.src() == cfg.keycode_regex
    &&& spec_pool_from(sw.sounds_keydown@, cfg.keydown_paths)
    &&& spec_pool_from(sw.sounds_keyup@, cfg.keyup_paths)
    &&& sw.position == spec_default_position()
}

impl Switch {
    /// Appends one pool of sounds, in path order.
    fn load_pool(self, paths: &Vec<String>, keydown: bool) -> (sw: Switch)
        ensures
            keydown ==> {
                &&& spec_pool_from(
                    sw.sounds_keydown@.skip(self.sounds_keydown@.len() as int),
                    paths.deep_view(),
                )
                &&& sw.sounds_keydown@.take(self.sounds_keydown@.len() as int)
                    == self.sounds_keydown@
                &&& sw.sounds_keyup == self.sounds_keyup
            },
            !keydown ==> {
                &&& spec_pool_from(
                    sw.sounds_keyup@.skip(self.sounds_keyup@.len() as int),
                    paths.deep_view(),
                )
                &&& sw.sounds_keyup@.take(self.sounds_keyup@.len() as int) == self.sounds_keyup@
                &&& sw.sounds_keydown == self.sounds_keydown
            },
            sw.keycode_regex == self.keycode_regex,
            sw.position == self.position,
    {
        let ghost base_down = self.sounds_keydown@;
        let ghost base_up = self.sounds_keyup@;
        let mut sw = self;
        let mut i: usize = 0;
        while i < paths.len()
            invariant
                i <= paths@.len(),
                sw.keycode_regex == self.keycode_regex,
                sw.position == self.position,
                keydown ==> {
                    &&& sw.sounds_keydown@.len() == base_down.len() + i
                    &&& sw.sounds_keydown@.take(base_down.len() as int) == base_down
                    &&& spec_pool_from(
                        sw.sounds_keydown@.skip(base_down.len() as int),
                        paths.deep_view().take(i as int),
                    )
                    &&& sw.sounds_keyup == self.sounds_keyup
                },
                !keydown ==> {
                    &&& sw.sounds_keyup@.len() == base_up.len() + i
                    &&& sw.sounds_keyup@.take(base_up.len() as int) == base_up
                    &&& spec_pool_from(
                        sw.sounds_keyup@.skip(base_up.len() as int),
                        paths.deep_view().take(i as int),
                    )
                    &&& sw.sounds_keydown == self.sounds_keydown
                },
            decreases paths@.len() - i,
        {
            let ghost before = sw;
            let sound = SwitchSound::from_path(paths[i].as_str());
            if keydown {
                sw.sounds_keydown.push(sound);
            } else {
                sw.sounds_keyup.push(sound);
            }
            proof {
                assert(paths.deep_view()[i as int] == paths@[i as int]@);
                assert(paths.deep_view().take(i + 1).drop_last() =~= paths.deep_view().take(
                    i as int,
                ));
                if keydown {
                    assert(sw.sounds_keydown@.take(base_down.len() as int)
                        =~= before.sounds_keydown@.take(base_down.len() as int));
                    assert(sw.sounds_keydown@.skip(base_down.len() as int)
                        =~= before.sounds_keydown@.skip(base_down.len() as int).push(sound));
                } else {
                    assert(sw.sounds_keyup@.take(base_up.len() as int)
                        =~= before.sounds_keyup@.take(base_up.len() as int));
                    assert(sw.sounds_keyup@.skip(base_up.len() as int)
                        =~= before.sounds_keyup@.skip(base_up.len() as int).push(sound));
                }
            }
            i += 1;
        }
        proof {
            assert(paths.deep_view().take(paths@.len() as int) =~= paths.deep_view());
        }
        sw
    }

    /// Builds the switch that the validated entry `cfg` describes:
    /// it succeeds exactly when the entry's pattern compiles, and an
    /// invalid pattern is reported as a regex error.
    pub fn from_config(cfg: &SwitchConfig) -> (result: Result<Switch, KeyboardError>)
        ensures
            result is Ok <==> regex_compiles(cfg@.keycode_regex),
            result matches Ok(sw) ==> spec_built_from(sw, cfg@),
            result matches Err(e) ==> e matches KeyboardError::Regex(_),
    {
        let pattern = match KeyPattern::new(cfg.keycode_regex.as_str()) {
            Ok(pattern) => pattern,
            Err(e) => {
                return Err(e);
            },
        };
        let sw = Switch::new().with_keycode_regex(pattern);
        let sw = sw.load_pool(&cfg.keydown_paths, true);
        let sw = sw.load_pool(&cfg.keyup_paths, false);
        proof {
            assert(sw.sounds_keydown@.skip(0) =~= sw.sounds_keydown@);
            assert(sw.sounds_keyup@.skip(0) =~= sw.sounds_keyup@);
        }
        Ok(sw)
    }

    /// Builds a switch from one raw document node: the node is
    /// validated first, then the switch is built from the result,
    /// succeeding exactly when the entry is well formed and its
    /// pattern compiles.
    pub fn from_yaml(value: &ConfigValue) -> (result: Result<Switch, KeyboardError>)
        ensures
            spec_parse_entry(*value) matches Err(m) ==> result matches Err(e) && e
                matches KeyboardError::Config(mm) && mm@ == m,
            spec_parse_entry(*value) matches Ok(cfg) ==> (result is Ok <==> regex_compiles(
                cfg.keycode_regex,
            )),
            result matches Ok(sw) ==> spec_parse_entry(*value) matches Ok(cfg)
                && spec_built_from(sw, cfg),
            spec_parse_entry(*value) is Ok && result is Err ==> result->Err_0
                matches KeyboardError::Regex(_),
    {
        match parse_switch_entry(value) {
            Ok(cfg) => Switch::from_config(&cfg),
            Err(e) => Err(e),
        }
    }
}

/// What handling `event` against `sw` must yield: a request from the
/// pool of the event's kind, or nothing for a modifier change.
pub open spec fn spec_switch_response(
    sw: Switch,
    event: KeyEvent,
    options: KeyboardOptions,
    response: Option<Playback>,
) -> bool {
    match event.etype {
        EventType::KeyDown => spec_pool_response(sw.sounds_keydown@, event.code, options, response),
        EventType::KeyUp => spec_pool_response(sw.sounds_keyup@, event.code, options, response),
        EventType::FlagsChanged => response is None,
    }
}

} // verus!
