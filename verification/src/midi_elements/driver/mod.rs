//! Drivers of the MidiElements hardware.

pub mod encoder;
