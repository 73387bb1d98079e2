//! Structural metadata of Windows Portable Executable images: section
//! headers and imported symbols, decoded from raw bytes and shaped into a
//! tree for display.

pub mod bytes;
pub mod text;
pub mod pe;
pub mod display;
