//! Input, storage and display-layout logic of the Kawa and MidiElements
//! synthesizer firmwares, with its contracts proved by Verus.

pub mod geometry;
pub mod kawa;
pub mod midi_elements;
