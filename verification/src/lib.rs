//! Verified logic of a runtime that hosts windowless browser views.

pub mod app_window;
pub mod background;
pub mod caret;
pub mod coordinate;
pub mod event_flags;
pub mod handling;
pub mod handling_laws;
pub mod history;
pub mod ime_request;
pub mod input_laws;
pub mod keys;
pub mod offscreen;
pub mod offscreen_input;
pub mod render;
pub mod saturate;
pub mod taskbar;
pub mod utf16;
