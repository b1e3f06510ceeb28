//! Core of an interactive terminal file browser: the modal key and mouse
//! state machine, the navigable listing, the clipboard and the reversible
//! filesystem command engine.
//!
//! Filesystem and terminal work is left to the caller: the library hands out
//! the operations to perform and takes their outcomes back.

pub mod text;
pub mod path;
pub mod list;
pub mod entry;
pub mod clipboard;
pub mod app;
pub mod commands;
pub mod event_handler;
pub mod utils;
