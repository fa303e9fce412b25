//! Turns a raw stream of low-level keyboard and mouse events into a small set of
//! display-ready events: clicks, double clicks, drags, key chords and pause notices.

pub mod clock;
pub mod events;
pub mod gesture;
pub mod keys;
pub mod label;
pub mod laws;
pub mod layout;
pub mod modifiers;
pub mod normalizer;
pub mod shell;
pub mod text;
