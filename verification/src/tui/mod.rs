//! The interactive selection list: a cursor over a fixed, ordered list of
//! suggestions that key presses move, confirm or cancel.

pub mod laws;
pub mod render;
pub mod selection;

pub use selection::{next_index, prev_index, CompletionUI, Key, Outcome, UiView};
