//! Request pipeline, session gate and view-model logic of a small dashboard
//! front end, with machine-checked contracts.
//!
//! The crate performs no input or output. A caller hands it plain values
//! (a verb, a URL, a status code, a stored token) and receives decisions:
//! the request to send, the error to report, the view to render, the
//! navigation to perform.

pub mod api;
pub mod components;
pub mod pages;
pub mod session;
pub mod utils;
