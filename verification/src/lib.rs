//! A small windowing shim: raw, OS-delivered input and window-lifecycle
//! notifications are translated into a clean, typed event stream.
//!
//! The crate tracks per-key and per-button state across repeat-prone raw
//! notifications, classifies every notification into a discrete action
//! (press, release, down or none), buffers the translated events in a FIFO
//! queue, and drives a consumer loop that is governed by an explicit
//! control-flow directive.

pub mod common;
pub mod controlflow;
pub mod events;
pub mod keyboard;
pub mod keycodes;
pub mod keystate;
pub mod manager;
pub mod mouse;
pub mod dispatcher;
pub mod queue;
pub mod translator;
pub mod windowbuilder;
