//! The Kawa synthesizer firmware: MIDI note handling, the patch store and the
//! panel UI.

pub mod main_loop;
pub mod midi_input;
pub mod ui;
pub mod patch;
pub mod storage;
pub mod synth;
pub mod util;
pub mod voice;
