//! Keystroke interception pipeline for a Vietnamese input method on Windows.
//!
//! The crate holds the decisions of the pipeline as verified functions on plain
//! values: classifying a physical key, recognising the bare Ctrl+Shift chord,
//! deciding whether the engine is consulted, and turning the engine's decision
//! into the batches of synthetic input events that rewrite the text.  The
//! operating-system calls themselves live in the program around the library.
pub mod vk;
pub mod keys;
pub mod key_map;
pub mod wide;
pub mod input;
pub mod decision;
pub mod foreground;
pub mod output;
pub mod event;
pub mod gesture;
pub mod settings;
pub mod engine;
pub mod hook;
pub mod template;
pub mod ui;
