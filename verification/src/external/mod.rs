//! Decisions around the desktop: clipboard contents.
pub mod clipboard;
