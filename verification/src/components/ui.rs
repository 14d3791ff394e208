//! The application's own navigation.

pub mod side_navigation;
pub mod sidebar_navigation;
