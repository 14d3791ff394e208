//! Helpers shared by the rest of the crate.

pub mod class_names;
pub mod cookies;
pub mod text;
