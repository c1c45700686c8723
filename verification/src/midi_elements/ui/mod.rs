//! The panel UI of MidiElements.

pub mod button;
pub mod framework;
pub mod knob;
pub mod panel;
pub mod panel_res1;
pub mod panel_strike;

pub use crate::kawa::ui::{BUTTON_POS_X, BUTTON_POS_Y, KNOB_POS_X, KNOB_POS_Y};
