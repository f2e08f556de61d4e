//! An auto clicker's core: the settings that its threads share, the click
//! loop as a machine, the hotkey listener and its replacement, and the
//! control surface that turns user intents into settings.
//!
//! Nothing here clicks, listens or draws. The program around this library
//! owns the threads: it performs what `engine::ClickEngine` tells it, feeds
//! `listener::HotkeyListener` the events of the keyboard, and shows what
//! `surface::ControlSurface` hands it.

mod cells;
pub mod engine;
pub mod hotkey;
pub mod interval;
pub mod listener;
pub mod shared;
pub mod state;
pub mod surface;
