//! Core logic of a desktop screenshot tool: keyboard shortcuts, user settings,
//! the annotation editor's state machine and the naming of saved files.

pub mod settings;
pub mod shortcuts;
pub mod editor;
pub mod files;
pub mod screens;
