//! The widget interface of MidiElements, shared with Kawa.

pub mod button;

pub use crate::kawa::ui::framework::{InputConsumer, InputId, Point, Size, Value};
