//! The keyboard: switch matching table, key state tracker, and the
//! event router that ties them together.
//!
//! The router consumes one event at a time. The tracker — the set of
//! key codes currently held — absorbs auto-repeated presses and
//! spurious releases; an accepted event is routed to the first switch
//! whose pattern matches the event's key code, and that switch
//! computes the playback request handed back to the caller.

use vstd::prelude::*;

use vstd::hash_set::HashSetWithView;

use crate::config::{
    parse_config, parse_switch_configs, spec_parse_document, yaml_documents, yaml_scans,
    ConfigValue, SwitchConfigV,
};
use crate::pattern::regex_compiles;
use crate::errors::KeyboardError;
use crate::events::{EventType, KeyCode, KeyEvent};
use crate::switch::{
    spec_built_from, spec_default_position, spec_pool_from, spec_switch_response, Playback, Switch,
};
use crate::text::{spec_contains, str_contains};

verus! {

broadcast use vstd::std_specs::hash::group_hash_axioms;

/// Options consulted for every routed event, set once at
/// construction. Volume and pan multiplier are held in thousandths:
/// 1000 stands for 1.0.
#[derive(Debug, Clone, Copy, PartialEq, Eq, Structural)]
pub struct KeyboardOptions {
    /// Pan multiplier, in thousandths. 0 turns positional sound off;
    /// a negative value reverses the directionality.
    pub x_scale_milli: i32,
    /// Playback volume, in thousandths of full volume.
    pub volume_milli: u32,
    /// Whether modifier-change events are routed at all.
    pub modifier_keys: bool,
}

impl KeyboardOptions {
    /// Full volume, unscaled pan, modifier keys excluded.
    pub fn default() -> (options: KeyboardOptions)
        ensures
            options == (KeyboardOptions {
                x_scale_milli: 1000,
                volume_milli: 1000,
                modifier_keys: false,
            }),
    {
        KeyboardOptions { x_scale_milli: 1000, volume_milli: 1000, modifier_keys: false }
    }
}

/// The position of the first switch of `switches` that matches
/// `code`, if any: configuration order is precedence order.
pub open spec fn spec_first_match(switches: Seq<Switch>, code: KeyCode) -> Option<int>
    decreases switches.len(),
{
    if switches.len() == 0 {
        None
    } else if switches[0].spec_handles(code) {
        Some(0)
    } else {
        match spec_first_match(switches.drop_first(), code) {
            Some(i) => Some(i + 1),
            None => None,
        }
    }
}

/// First-match-wins: the selected switch matches, no switch before
/// it does, and nothing is selected only when nothing matches.
pub proof fn lemma_first_match_wins(switches: Seq<Switch>, code: KeyCode)
    ensures
        match spec_first_match(switches, code) {
            Some(i) => 0 <= i < switches.len() && (#[trigger] switches[i]).spec_handles(code)
                && forall|j: int| 0 <= j < i ==> !(#[trigger] switches[j]).spec_handles(code),
            None => forall|j: int|
                0 <= j < switches.len() ==> !(#[trigger] switches[j]).spec_handles(code),
        },
    decreases switches.len(),
{
    if switches.len() > 0 && !switches[0].spec_handles(code) {
        lemma_first_match_wins(switches.drop_first(), code);
        assert forall|j: int| 0 < j < switches.len() implies switches.drop_first()[j - 1]
            == switches[j] by {}
    }
}

/// Whether the tracker lets `event` through: a press of a code not
/// yet held, a release of a held code, or a modifier change when the
/// options route modifier keys.
pub open spec fn spec_tracker_accepts(
    keys: Set<KeyCode>,
    event: KeyEvent,
    options: KeyboardOptions,
) -> bool {
    match event.etype {
        EventType::KeyDown => !keys.contains(event.code),
        EventType::KeyUp => keys.contains(event.code),
        EventType::FlagsChanged => options.modifier_keys,
    }
}

/// The tracker after `event`: presses insert the code, releases
/// remove it, modifier changes leave the set alone.
pub open spec fn spec_tracker_step(keys: Set<KeyCode>, event: KeyEvent) -> Set<KeyCode> {
    match event.etype {
        EventType::KeyDown => keys.insert(event.code),
        EventType::KeyUp => keys.remove(event.code),
        EventType::FlagsChanged => keys,
    }
}

/// What routing an accepted `event` must yield: the response of the
/// first matching switch, or nothing when no switch matches.
pub open spec fn spec_routed_response(
    switches: Seq<Switch>,
    event: KeyEvent,
    options: KeyboardOptions,
    response: Option<Playback>,
) -> bool {
    match spec_first_match(switches, event.code) {
        Some(i) => spec_switch_response(switches[i], event, options, response),
        None => response is None,
    }
}

/// Whether the file at `path` is a sound resource by the default
/// rule: its path names a WAV or MP3 file.
pub open spec fn spec_is_sound_file(path: Seq<char>) -> bool {
    spec_contains(path, ".wav"@) || spec_contains(path, ".mp3"@)
}

/// Applies the default sound-file rule to one path.
pub fn is_sound_file(path: &str) -> (matched: bool)
    ensures
        matched == spec_is_sound_file(path@),
{
    str_contains(path, ".wav") || str_contains(path, ".mp3")
}

/// The paths of `paths` that the default sound-file rule keeps, in
/// their given order.
pub open spec fn spec_sound_files(paths: Seq<Seq<char>>) -> Seq<Seq<char>>
    decreases paths.len(),
{
    if paths.len() == 0 {
        Seq::empty()
    } else if spec_is_sound_file(paths.last()) {
        spec_sound_files(paths.drop_last()).push(paths.last())
    } else {
        spec_sound_files(paths.drop_last())
    }
}

/// Whether every entry's pattern text compiles as a regular
/// expression — the one condition beyond well-formedness that
/// loading a validated document still needs.
pub open spec fn spec_all_patterns_compile(cfgs: Seq<SwitchConfigV>) -> bool {
    forall|i: int| 0 <= i < cfgs.len() ==> #[trigger] regex_compiles(cfgs[i].keycode_regex)
}

/// Whether `kb` is `base` extended by the switches that the
/// validated entries `cfgs` describe, in order, everything else
/// unchanged.
pub open spec fn spec_loaded_from(kb: Keyboard, base: Keyboard, cfgs: Seq<SwitchConfigV>) -> bool {
    &&& kb.spec_switches().len() == base.spec_switches().len() + cfgs.len()
    &&& kb.spec_switches().take(base.spec_switches().len() as int) == base.spec_switches()
    &&& forall|i: int|
        0 <= i < cfgs.len() ==> spec_built_from(
            #[trigger] kb.spec_switches()[base.spec_switches().len() + i],
            cfgs[i],
        )
    &&& kb.spec_keys_down() == base.spec_keys_down()
    &&& kb.spec_options() == base.spec_options()
}

/// The keyboard: an ordered switch table, the set of keys currently
/// held, and the routing options.
pub struct Keyboard {
    switches: Vec<Switch>,
    keys_down: HashSetWithView<KeyCode>,
    options: KeyboardOptions,
}

impl Keyboard {
    /// The switch matching table, in configuration order.
    pub closed spec fn spec_switches(self) -> Seq<Switch> {
        self.switches@
    }

    /// The key codes currently considered held.
    pub closed spec fn spec_keys_down(self) -> Set<KeyCode> {
        self.keys_down@
    }

    /// The routing options.
    pub closed spec fn spec_options(self) -> KeyboardOptions {
        self.options
    }

    /// A keyboard with no switches, no held keys, and the default
    /// options.
    pub fn new() -> (kb: Keyboard)
        ensures
            kb.spec_switches().len() == 0,
            kb.spec_keys_down() == Set::<KeyCode>::empty(),
            kb.spec_options() == (KeyboardOptions {
                x_scale_milli: 1000,
                volume_milli: 1000,
                modifier_keys: false,
            }),
    {
        Keyboard {
            switches: Vec::new(),
            keys_down: HashSetWithView::new(),
            options: KeyboardOptions::default(),
        }
    }

    /// A keyboard with no switches and no held keys, routing with
    /// the given options.
    pub fn with_options(options: KeyboardOptions) -> (kb: Keyboard)
        ensures
            kb.spec_switches().len() == 0,
            kb.spec_keys_down() == Set::<KeyCode>::empty(),
            kb.spec_options() == options,
    {
        Keyboard { switches: Vec::new(), keys_down: HashSetWithView::new(), options }
    }

    /// Appends a switch to the end of the matching table: it has the
    /// lowest precedence of all switches configured so far.
    pub fn switch(self, switch: Switch) -> (kb: Keyboard)
        ensures
            kb.spec_switches() == self.spec_switches().push(switch),
            kb.spec_keys_down() == self.spec_keys_down(),
            kb.spec_options() == self.spec_options(),
    {
        let mut kb = self;
        kb.switches.push(switch);
        kb
    }

    /// Sets the playback volume, in thousandths of full volume.
    pub fn set_volume(self, volume_milli: u32) -> (kb: Keyboard)
        ensures
            kb.spec_options() == (KeyboardOptions { volume_milli, ..self.spec_options() }),
            kb.spec_switches() == self.spec_switches(),
            kb.spec_keys_down() == self.spec_keys_down(),
    {
        let mut kb = self;
        kb.options.volume_milli = volume_milli;
        kb
    }

    /// Sets the pan multiplier, in thousandths. The larger the
    /// value, the further apart the clicks sound; 0 turns positional
    /// sound off and a negative value reverses the directionality.
    pub fn set_x_scale(self, x_scale_milli: i32) -> (kb: Keyboard)
        ensures
            kb.spec_options() == (KeyboardOptions { x_scale_milli, ..self.spec_options() }),
            kb.spec_switches() == self.spec_switches(),
            kb.spec_keys_down() == self.spec_keys_down(),
    {
        let mut kb = self;
        kb.options.x_scale_milli = x_scale_milli;
        kb
    }

    /// Appends a catch-all switch whose key-down pool holds the
    /// given paths, keeping those the default sound-file rule
    /// accepts, in order.
    pub fn add_default_handler(self, paths: &Vec<String>) -> (result: Result<
        Keyboard,
        KeyboardError,
    >)
        ensures
            result matches Ok(kb) && {
                &&& kb.spec_switches().len() == self.spec_switches().len() + 1
                &&& kb.spec_switches().drop_last() == self.spec_switches()
                &&& kb.spec_switches().last().keycode_regex.src() == ".*"@
                &&& forall|text: Seq<char>|
                    crate::pattern::regex_match(
                        kb.spec_switches().last().keycode_regex.src(),
                        text,
                    )
                &&& spec_pool_from(
                    kb.spec_switches().last().sounds_keydown@,
                    spec_sound_files(paths.deep_view()),
                )
                &&& kb.spec_switches().last().sounds_keyup@.len() == 0
                &&& kb.spec_switches().last().position == spec_default_position()
                &&& kb.spec_keys_down() == self.spec_keys_down()
                &&& kb.spec_options() == self.spec_options()
            },
    {
        let mut sw = Switch::new();
        let mut i: usize = 0;
        while i < paths.len()
            invariant
                i <= paths@.len(),
                sw.keycode_regex.src() == ".*"@,
                forall|text: Seq<char>| crate::pattern::regex_match(sw.keycode_regex.src(), text),
                sw.sounds_keyup@.len() == 0,
                sw.position == spec_default_position(),
                spec_pool_from(sw.sounds_keydown@, spec_sound_files(paths.deep_view().take(i as int))),
            decreases paths@.len() - i,
        {
            proof {
                assert(paths.deep_view().take(i + 1).drop_last() =~= paths.deep_view().take(
                    i as int,
                ));
                assert(paths.deep_view()[i as int] == paths@[i as int]@);
            }
            if is_sound_file(paths[i].as_str()) {
                let ghost before = sw.sounds_keydown@;
                sw = match sw.load_sound_keydown(paths[i].as_str()) {
                    Ok(sw) => sw,
                    Err(_) => unreached(),
                };
                proof {
                    let filtered = spec_sound_files(paths.deep_view().take(i + 1));
                    assert(filtered =~= spec_sound_files(paths.deep_view().take(i as int)).push(
                        paths@[i as int]@,
                    ));
                    assert forall|k: int| 0 <= k < sw.sounds_keydown@.len() implies (
                    #[trigger] sw.sounds_keydown@[k]).path@ == filtered[k]
                        && sw.sounds_keydown@[k].name@ == crate::text::spec_file_name(
                        filtered[k],
                    ) by {
                        if k < before.len() {
                            assert(sw.sounds_keydown@[k] == before[k]);
                        }
                    }
                }
            }
            i += 1;
        }
        proof {
            assert(paths.deep_view().take(paths@.len() as int) =~= paths.deep_view());
        }
        let mut kb = self;
        kb.switches.push(sw);
        proof {
            assert(kb.switches@.drop_last() =~= self.switches@);
        }
        Ok(kb)
    }

    /// Extends the matching table with the switches a validated
    /// document describes, in document order. It succeeds exactly
    /// when the document is well formed and every entry's pattern
    /// compiles; only a pattern that fails to compile can fail
    /// beyond validation.
    pub fn load_config(self, doc: &ConfigValue) -> (result: Result<Keyboard, KeyboardError>)
        ensures
            spec_parse_document(*doc) matches Err(m) ==> result matches Err(e) && e
                matches KeyboardError::Config(mm) && mm@ == m,
            spec_parse_document(*doc) matches Ok(cfgs) && spec_all_patterns_compile(cfgs)
                ==> result is Ok,
            result matches Ok(kb) ==> spec_parse_document(*doc) matches Ok(cfgs)
                && spec_loaded_from(kb, self, cfgs),
            spec_parse_document(*doc) is Ok && result is Err ==> result->Err_0
                matches KeyboardError::Regex(_),
            (result matches Err(e) && e matches KeyboardError::Regex(_)) ==> (spec_parse_document(
                *doc,
            ) matches Ok(cfgs) && !spec_all_patterns_compile(cfgs)),
    {
        let cfgs = match parse_switch_configs(doc) {
            Ok(cfgs) => cfgs,
            Err(e) => {
                return Err(e);
            },
        };
        let ghost base = self;
        let ghost cfg_views = cfgs.deep_view();
        let mut kb = self;
        let mut i: usize = 0;
        while i < cfgs.len()
            invariant
                i <= cfgs@.len(),
                cfg_views == cfgs.deep_view(),
                spec_parse_document(*doc) == Ok::<Seq<SwitchConfigV>, Seq<char>>(cfg_views),
                kb.spec_switches().len() == base.spec_switches().len() + i,
                kb.spec_switches().take(base.spec_switches().len() as int)
                    == base.spec_switches(),
                forall|j: int|
                    0 <= j < i ==> spec_built_from(
                        #[trigger] kb.spec_switches()[base.spec_switches().len() + j],
                        cfg_views[j],
                    ),
                kb.spec_keys_down() == base.spec_keys_down(),
                kb.spec_options() == base.spec_options(),
            decreases cfgs@.len() - i,
        {
            let sw = match Switch::from_config(&cfgs[i]) {
                Ok(sw) => sw,
                Err(e) => {
                    proof {
                        assert(cfg_views[i as int] == cfgs@[i as int]@);
                        assert(!spec_all_patterns_compile(cfg_views));
                    }
                    return Err(e);
                },
            };
            let ghost before = kb.switches@;
            kb.switches.push(sw);
            proof {
                assert(cfgs.deep_view()[i as int] == cfgs@[i as int]@);
                assert(kb.switches@.take(base.spec_switches().len() as int) =~= before.take(
                    base.spec_switches().len() as int,
                ));
            }
            i += 1;
        }
        Ok(kb)
    }

    /// Loads a whole configuration text: scans it, validates its
    /// first document, and extends the matching table accordingly.
    /// It succeeds exactly when the text scans, yields a document,
    /// the document is well formed, and every pattern compiles; each
    /// error variant names the stage that refused.
    pub fn load_config_yaml(self, config: &str) -> (result: Result<Keyboard, KeyboardError>)
        ensures
            result matches Ok(kb) ==> ({
                let docs = yaml_documents(config@);
                &&& docs.len() > 0
                &&& spec_parse_document(docs[0]) matches Ok(cfgs) && spec_loaded_from(
                    kb,
                    self,
                    cfgs,
                )
            }),
            ({
                let docs = yaml_documents(config@);
                yaml_scans(config@) && docs.len() > 0 && (spec_parse_document(docs[0]) matches Ok(
                    cfgs,
                ) && spec_all_patterns_compile(cfgs)) ==> result is Ok
            }),
            !yaml_scans(config@) ==> (result matches Err(e) && e
                matches KeyboardError::ScanError(_)),
            result matches Err(e) ==> match e {
                KeyboardError::ScanError(_) => !yaml_scans(config@),
                KeyboardError::Config(m) => {
                    let docs = yaml_documents(config@);
                    ||| docs.len() == 0 && m@ == "config must not be empty"@
                    ||| docs.len() > 0 && (spec_parse_document(docs[0]) matches Err(mm) && m@
                        == mm)
                },
                KeyboardError::Regex(_) => {
                    let docs = yaml_documents(config@);
                    docs.len() > 0 && (spec_parse_document(docs[0]) matches Ok(cfgs)
                        && !spec_all_patterns_compile(cfgs))
                },
            },
    {
        let docs = match parse_config(config) {
            Ok(docs) => docs,
            Err(e) => {
                return Err(e);
            },
        };
        if docs.len() == 0 {
            return Err(KeyboardError::Config("config must not be empty".to_owned()));
        }
        self.load_config(&docs[0])
    }

    /// The index of the first switch whose pattern matches `code`:
    /// the matching table is scanned in configuration order.
    pub fn get_switch_index(&self, code: KeyCode) -> (found: Option<usize>)
        ensures
            match found {
                Some(i) => i < self.spec_switches().len() && spec_first_match(
                    self.spec_switches(),
                    code,
                ) == Some(i as int),
                None => spec_first_match(self.spec_switches(), code) is None,
            },
    {
        proof {
            assert(self.switches@.skip(0) =~= self.switches@);
        }
        let mut i: usize = 0;
        while i < self.switches.len()
            invariant
                i <= self.switches@.len(),
                spec_first_match(self.switches@, code) == (match spec_first_match(
                    self.switches@.skip(i as int),
                    code,
                ) {
                    Some(k) => Some(k + i),
                    None => None::<int>,
                }),
            decreases self.switches@.len() - i,
        {
            proof {
                assert(self.switches@.skip(i as int)[0] == self.switches@[i as int]);
            }
            if self.switches[i].handles(code) {
                return Some(i);
            }
            proof {
                assert(self.switches@.skip(i as int).drop_first() =~= self.switches@.skip(
                    i as int + 1,
                ));
            }
            i += 1;
        }
        proof {
            assert(self.switches@.skip(self.switches@.len() as int) =~= Seq::<Switch>::empty());
        }
        None
    }

    /// Routes `event` to the first switch that matches its code and
    /// returns that switch's playback request, if any.
    pub fn call_event_handler(&self, event: KeyEvent) -> (response: Option<Playback>)
        ensures
            spec_routed_response(self.spec_switches(), event, self.spec_options(), response),
    {
        match self.get_switch_index(event.code) {
            Some(i) => self.switches[i].handle_event(event, &self.options),
            None => None,
        }
    }

    /// Consumes one event: updates the key state tracker, absorbs
    /// repeats and unmatched releases, and routes what remains.
    pub fn handle_event(&mut self, event: KeyEvent) -> (response: Option<Playback>)
        ensures
            final(self).spec_switches() == old(self).spec_switches(),
            final(self).spec_options() == old(self).spec_options(),
            final(self).spec_keys_down() == spec_tracker_step(old(self).spec_keys_down(), event),
            spec_tracker_accepts(old(self).spec_keys_down(), event, old(self).spec_options())
                ==> spec_routed_response(
                old(self).spec_switches(),
                event,
                old(self).spec_options(),
                response,
            ),
            !spec_tracker_accepts(old(self).spec_keys_down(), event, old(self).spec_options())
                ==> response is None,
    {
        match event.etype {
            EventType::KeyDown => {
                if !self.keys_down.contains(&event.code) {
                    self.keys_down.insert(event.code);
                    self.call_event_handler(event)
                } else {
                    proof {
                        assert(old(self).spec_keys_down().insert(event.code) =~= old(
                            self,
                        ).spec_keys_down());
                    }
                    None
                }
            },
            EventType::KeyUp => {
                if self.keys_down.contains(&event.code) {
                    self.keys_down.remove(&event.code);
                    self.call_event_handler(event)
                } else {
                    proof {
                        assert(old(self).spec_keys_down().remove(event.code) =~= old(
                            self,
                        ).spec_keys_down());
                    }
                    None
                }
            },
            EventType::FlagsChanged => {
                if self.options.modifier_keys {
                    self.call_event_handler(event)
                } else {
                    None
                }
            },
        }
    }
}

/// The tracker after a whole sequence of events.
pub open spec fn spec_keys_after(keys: Set<KeyCode>, events: Seq<KeyEvent>) -> Set<KeyCode>
    decreases events.len(),
{
    if events.len() == 0 {
        keys
    } else {
        spec_keys_after(spec_tracker_step(keys, events[0]), events.drop_first())
    }
}

/// How many events of a sequence the tracker accepts — each accepted
/// event is exactly one dispatch to the matching table.
pub open spec fn spec_accept_count(
    keys: Set<KeyCode>,
    events: Seq<KeyEvent>,
    options: KeyboardOptions,
) -> nat
    decreases events.len(),
{
    if events.len() == 0 {
        0
    } else {
        (if spec_tracker_accepts(keys, events[0], options) {
            1nat
        } else {
            0nat
        }) + spec_accept_count(spec_tracker_step(keys, events[0]), events.drop_first(), options)
    }
}

/// Acceptance counting and tracker evolution both split over
/// concatenation of event sequences.
pub proof fn lemma_accept_count_concat(
    keys: Set<KeyCode>,
    first: Seq<KeyEvent>,
    second: Seq<KeyEvent>,
    options: KeyboardOptions,
)
    ensures
        spec_keys_after(keys, first + second) == spec_keys_after(
            spec_keys_after(keys, first),
            second,
        ),
        spec_accept_count(keys, first + second, options) == spec_accept_count(
            keys,
            first,
            options,
        ) + spec_accept_count(spec_keys_after(keys, first), second, options),
    decreases first.len(),
{
    if first.len() == 0 {
        assert(first + second =~= second);
    } else {
        assert((first + second)[0] == first[0]);
        assert((first + second).drop_first() =~= first.drop_first() + second);
        lemma_accept_count_concat(
            spec_tracker_step(keys, first[0]),
            first.drop_first(),
            second,
            options,
        );
    }
}

/// While a code is held, further presses of it are all absorbed: no
/// dispatch happens and the tracker keeps its value.
pub proof fn lemma_held_key_absorbs_repeats(
    keys: Set<KeyCode>,
    code: KeyCode,
    options: KeyboardOptions,
    events: Seq<KeyEvent>,
)
    requires
        keys.contains(code),
        forall|i: int|
            0 <= i < events.len() ==> events[i] == (KeyEvent { etype: EventType::KeyDown, code }),
    ensures
        spec_accept_count(keys, events, options) == 0,
        spec_keys_after(keys, events) == keys,
    decreases events.len(),
{
    if events.len() > 0 {
        assert(keys.insert(code) =~= keys);
        lemma_held_key_absorbs_repeats(keys, code, options, events.drop_first());
    }
}

/// Repeat absorption: a run of key-down events for one code, with no
/// intervening key-up, dispatches exactly once — the first press is
/// accepted, every repeat is absorbed.
pub proof fn lemma_repeat_keydown_dispatches_once(
    keys: Set<KeyCode>,
    code: KeyCode,
    options: KeyboardOptions,
    events: Seq<KeyEvent>,
)
    requires
        !keys.contains(code),
        events.len() >= 1,
        forall|i: int|
            0 <= i < events.len() ==> events[i] == (KeyEvent { etype: EventType::KeyDown, code }),
    ensures
        spec_accept_count(keys, events, options) == 1,
        spec_keys_after(keys, events) == keys.insert(code),
{
    let held = spec_tracker_step(keys, events[0]);
    assert(held == keys.insert(code));
    lemma_held_key_absorbs_repeats(held, code, options, events.drop_first());
}

/// A release with no matching press is absorbed: it is not accepted
/// and the tracker keeps its value — no state is corrupted.
pub proof fn lemma_unmatched_keyup_harmless(
    keys: Set<KeyCode>,
    code: KeyCode,
    options: KeyboardOptions,
)
    requires
        !keys.contains(code),
    ensures
        !spec_tracker_accepts(keys, (KeyEvent { etype: EventType::KeyUp, code }), options),
        spec_tracker_step(keys, (KeyEvent { etype: EventType::KeyUp, code })) == keys,
{
    assert(keys.remove(code) =~= keys);
}

/// A well-formed press/release pair is accepted in full and returns
/// the tracker to its old value; processing the same pair twice
/// therefore yields two independent dispatch pairs.
pub proof fn lemma_pair_processed_twice(
    keys: Set<KeyCode>,
    code: KeyCode,
    options: KeyboardOptions,
)
    requires
        !keys.contains(code),
    ensures
        ({
            let down = (KeyEvent { etype: EventType::KeyDown, code });
            let up = (KeyEvent { etype: EventType::KeyUp, code });
            let pair = seq![down, up];
            &&& spec_accept_count(keys, pair, options) == 2
            &&& spec_keys_after(keys, pair) == keys
            &&& spec_accept_count(keys, pair + pair, options) == 4
            &&& spec_keys_after(keys, pair + pair) == keys
        }),
{
    let down = KeyEvent { etype: EventType::KeyDown, code };
    let up = KeyEvent { etype: EventType::KeyUp, code };
    let pair = seq![down, up];
    let rest = pair.drop_first();
    assert(pair[0] == down);
    assert(rest =~= seq![up]);
    assert(rest[0] == up);
    assert(rest.drop_first() =~= Seq::<KeyEvent>::empty());
    let held = spec_tracker_step(keys, down);
    assert(held == keys.insert(code));
    assert(held.contains(code));
    let released = spec_tracker_step(held, up);
    assert(released =~= keys);
    assert(spec_keys_after(released, rest.drop_first()) == released);
    assert(spec_keys_after(held, rest) == released);
    assert(spec_keys_after(keys, pair) == keys);
    assert(spec_accept_count(released, rest.drop_first(), options) == 0);
    assert(spec_accept_count(held, rest, options) == 1);
    assert(spec_accept_count(keys, pair, options) == 2);
    lemma_accept_count_concat(keys, pair, pair, options);
}

} // verus!
