//! The MidiElements synthesizer firmware: the knob handlers of the synth
//! engine and the panel UI.

pub mod driver;
pub mod elements_handlers;
pub mod ui;
