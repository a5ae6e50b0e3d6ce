//! Buffers and their formats.

pub mod format;
pub mod format_set;
