//! The events exchanged between the platform event source and the core.

use vstd::prelude::*;

verus! {

/// Numeric identifier of a physical key, stable across repeats of the
/// same key; the platform defines the actual values.
pub type KeyCode = u16;

/// What kind of transition a key event describes.
#[derive(Clone, Copy, Debug, PartialEq, Eq, Structural)]
pub enum EventType {
    /// A key went down (possibly an auto-repeat while held).
    KeyDown,
    /// A key was released.
    KeyUp,
    /// A modifier key changed state.
    FlagsChanged,
}

/// One key event, produced once per observed transition.
#[derive(Clone, Copy, Debug, PartialEq, Eq, Structural)]
pub struct KeyEvent {
    /// The kind of transition.
    pub etype: EventType,
    /// The key code the transition belongs to.
    pub code: KeyCode,
}

} // verus!
