//! What the pages compute.

pub mod home;
