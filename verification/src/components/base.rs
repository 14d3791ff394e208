//! The building blocks: buttons, icons, collapsibles and the sidebar.

pub mod button;
pub mod collapsible;
pub mod icons;
pub mod render_as;
pub mod sidebar;
