//! What each operation is for, told of its inputs and its results.
pub mod answers;
pub mod hotkeys;
pub mod lists;
pub mod models;
pub mod paths;
pub mod requests;
pub mod rules;
pub mod screen;
pub mod settings;
pub mod tasks;
pub mod texts;
pub mod tray;
pub mod watch;
