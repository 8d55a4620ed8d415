//! A native greeting for a Java host runtime.
//!
//! The library builds the text `Rust!` and hands it to the host as a Java
//! string. It keeps no state: every call stands on its own.

pub mod entry;
pub mod host;
pub mod text;
