//! An offline password vault.
//!
//! The library holds the rules of the vault: its error categories, the
//! secure-memory buffer, the key hierarchy, the file format, the application
//! state machine, the clipboard and auto-lock timers and the decisions behind
//! each screen. Files, windows, the system clipboard and JSON live outside it.
//! What the operations promise is written out in [`laws`].

pub mod app;
pub mod autolock;
pub mod clipboard;
pub mod clipboard_port;
pub mod clock;
pub mod crypto;
pub mod entry;
pub mod error;
pub mod laws;
pub mod memory_lock;
pub mod password_generator;
pub mod platform;
pub mod primitives;
pub mod security;
pub mod storage;
pub mod text;
pub mod ui;
pub mod vault;
