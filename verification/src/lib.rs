//! Uploading images from the clipboard: the settings, the uploads and their retries, the
//! tray, the window and what all of them promise.
pub mod clipboard;
pub mod config;
pub mod digits;
pub mod events;
pub mod hotkey;
pub mod json;
pub mod laws;
pub mod lifecycle;
pub mod promises;
pub mod request;
pub mod response;
pub mod shell;
pub mod state;
pub mod system;
pub mod task;
pub mod text;
pub mod theme;
pub mod tray;
pub mod view;
pub mod window;
