//! A terminal pager's core: the key-input state machine, the deadzone
//! scrolling engine and the text that a frame paints.

pub mod input;
pub mod laws;
pub mod opts;
pub mod render;
pub mod text;
pub mod view;
