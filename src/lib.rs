//! Concatenates text sources line by line, optionally numbering every line
//! or only the non-blank ones.
//!
//! `numbering` holds the per-source state machine and the rendering of a
//! source's lines, `format` the right-justified line number, `config` the
//! choice of the starting mode and the per-source result, and `laws` the
//! properties that the rendering satisfies.

pub mod config;
pub mod format;
pub mod laws;
pub mod numbering;
