//! Pure parts of the platform event sources.
//!
//! The blocking reads and the native run loops live outside the
//! library; what is kept here is the arithmetic and the decoding that
//! turn a raw platform record into a [`KeyEvent`].

use vstd::prelude::*;

use crate::events::{EventType, KeyCode, KeyEvent};

verus! {

/// A raw record read from a Linux input device, with every field as a
/// plain integer. Only records with `etype == 1` (key records)
/// describe key transitions.
#[derive(Clone, Copy, Debug, PartialEq, Eq, Structural)]
pub struct InputEvent {
    /// Seconds part of the kernel timestamp.
    pub seconds: u64,
    /// Microseconds part of the kernel timestamp.
    pub microseconds: u64,
    /// Record type; key transitions carry type 1.
    pub etype: u16,
    /// The key code.
    pub code: u16,
    /// 0 for a release, anything else for a press or repeat.
    pub value: u32,
}

/// Whether `code` is one of the Linux modifier key codes (control,
/// shift, alt, meta, and their right-hand variants).
pub open spec fn spec_is_flag(code: KeyCode) -> bool {
    code == 29 || code == 42 || code == 54 || code == 56 || code == 58 || code == 97 || code == 100
        || code == 125
}

/// Classifies `code` as a modifier ("flag") key or not.
pub fn is_flag(code: KeyCode) -> (flag: bool)
    ensures
        flag == spec_is_flag(code),
{
    match code {
        100 | 125 | 29 | 42 | 54 | 56 | 58 | 97 => true,
        _ => false,
    }
}

impl InputEvent {
    /// The key event this record stands for: modifier codes become
    /// [`EventType::FlagsChanged`], otherwise the value decides
    /// between press and release.
    pub open spec fn spec_key_event(self) -> KeyEvent {
        KeyEvent {
            etype: if spec_is_flag(self.code) {
                EventType::FlagsChanged
            } else if self.value == 0 {
                EventType::KeyUp
            } else {
                EventType::KeyDown
            },
            code: self.code,
        }
    }

    /// Whether this record describes a key transition at all.
    pub fn is_key(&self) -> (key: bool)
        ensures
            key == (self.etype == 1),
    {
        self.etype == 1
    }

    /// Decodes the record into the event the router consumes.
    pub fn to_key_event(&self) -> (event: KeyEvent)
        ensures
            event == self.spec_key_event(),
    {
        let etype = if is_flag(self.code) {
            EventType::FlagsChanged
        } else if self.value == 0 {
            EventType::KeyUp
        } else {
            EventType::KeyDown
        };
        KeyEvent { etype, code: self.code }
    }
}

/// The quartz event type number of a key press.
pub const QUARTZ_KEY_DOWN: u32 = 10;

/// The quartz event type number of a key release.
pub const QUARTZ_KEY_UP: u32 = 11;

/// The quartz event type number of a modifier change.
pub const QUARTZ_FLAGS_CHANGED: u32 = 12;

/// Classifies a quartz event type number; anything but a key press,
/// a key release, or a modifier change is not a key event at all.
pub fn quartz_event_type(event_type: u32) -> (kind: Option<EventType>)
    ensures
        kind == (if event_type == QUARTZ_KEY_DOWN {
            Some(EventType::KeyDown)
        } else if event_type == QUARTZ_KEY_UP {
            Some(EventType::KeyUp)
        } else if event_type == QUARTZ_FLAGS_CHANGED {
            Some(EventType::FlagsChanged)
        } else {
            None::<EventType>
        }),
{
    match event_type {
        QUARTZ_KEY_DOWN => Some(EventType::KeyDown),
        QUARTZ_KEY_UP => Some(EventType::KeyUp),
        QUARTZ_FLAGS_CHANGED => Some(EventType::FlagsChanged),
        _ => None,
    }
}

/// The event mask bit for a quartz event type, as the native headers
/// define it by a shift.
#[allow(non_snake_case)]
pub fn CGEventMaskBit(event_type: u32) -> (mask: u64)
    requires
        event_type < 64,
    ensures
        mask == 1u64 << event_type,
{
    1u64 << event_type
}

/// One-time setup of the platform event source. Where the input
/// device already streams events on its own, as on Linux, nothing has
/// to happen before the reads start, so this is a no-op.
pub fn register_listener() {
}

} // verus!
