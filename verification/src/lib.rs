//! Core logic of a dockable editor-overlay UI: window registration and
//! dispatch state, a clone-on-change window cache, tab-tree bookkeeping,
//! link-based state resolution, and the helpers the panels share.

pub mod editor;
pub mod editor_window;
pub mod entity_map;
pub mod open;
pub mod tabs;
pub mod text;
pub mod windows;
