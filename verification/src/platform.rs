//! Desktop geometry and the capabilities of each platform's cursor backend.
pub mod cursor;
pub mod linux;
pub mod macos;
pub mod unsupported;
pub mod windows;
