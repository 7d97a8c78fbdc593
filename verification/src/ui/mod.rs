//! What the user interface decides, apart from drawing itself.

pub mod canvas;
pub mod sidebar;
