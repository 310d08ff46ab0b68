//! Core of a generative two-voice MIDI step sequencer.
//!
//! Two pattern generators turn editable parameters into note sequences, a
//! mixer interleaves the two sequences step by step, and a playhead walks the
//! mix and says which MIDI bytes leave when.

pub mod gui;
pub mod input;
pub mod midi;
pub mod note;
pub mod playback;
pub mod sequencers;
pub mod state;
