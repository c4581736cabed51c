//! Core model of a small plain-text editor: colour themes, persisted user
//! preferences with a most-recently-used file list, and the editing session
//! (buffer, cursor, find/replace, and the file commands' state transitions).
//!
//! Everything here is pure state manipulation on plain values; the GUI,
//! the native dialogs, and the settings file on disk live outside this
//! library and hand it their results as arguments.

pub mod editor;
pub mod paths;
pub mod search;
pub mod settings;
pub mod theme;
