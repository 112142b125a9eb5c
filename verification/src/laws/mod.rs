//! What the operations promise.
//!
//! The laws here say what comes out of an operation in terms of what goes in,
//! written out in full: limits as numbers, texts as texts, and cryptography as
//! the primitives that it is made of.

pub mod app;
pub mod clipboard;
pub mod crypto;
pub mod entry;
pub mod error;
pub mod generator;
pub mod memory;
pub mod storage;
pub mod text;
pub mod timer;
pub mod ui;
pub mod vault;
