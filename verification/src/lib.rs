//! Supervision core for an external media-download tool.
//!
//! The library plans the tool's format-selection expression and argument
//! vectors, parses its textual progress output into structured updates, folds
//! those updates into a per-session state machine that emits progress and
//! terminal events with exactly one terminal event per session, decides the
//! helper tools' status from probe results, and selects tool binaries out of
//! downloaded archives.

pub mod args;
pub mod extract;
pub mod formats;
pub mod parse;
pub mod services;
pub mod session;
pub mod strutil;
