//! Music-theory helpers: scales and chords computed from a root MIDI note,
//! and validated chord events laid out on a fixed-length pattern timeline.
pub mod chord;
pub mod interval;
pub mod pattern;
pub mod scale;
