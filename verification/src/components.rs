//! What the interface components compute: class lists, attribute values and
//! the small state machines behind them. Rendering is left to the caller.

pub mod base;
pub mod ui;
