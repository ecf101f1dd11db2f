//! Core logic of a mechanical-keyboard sound emulator.
//!
//! The library decides, for every key event delivered by a platform
//! event source, whether the event is a fresh physical action or an
//! auto-repeat, which configured switch owns the event's key code, and
//! which sound is to be played with what volume and stereo position.
//! Reading input devices and talking to the audio backend are left to
//! the surrounding application; the library exchanges plain values
//! with it.

pub mod config;
pub mod errors;
pub mod events;
pub mod keyboard;
pub mod pattern;
pub mod platform;
pub mod switch;
pub mod text;
