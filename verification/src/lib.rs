//! Saved SSH connection presets and the decision logic of the panel that
//! lists, edits, saves, deletes and launches them.

pub mod ids;
pub mod panel;
pub mod settings;
pub mod text;
