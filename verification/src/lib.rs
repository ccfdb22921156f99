//! Verified core of two small command-line tools over the host's GPIO
//! character-device library.
//!
//! The foreign calls themselves live with the program that links the host
//! library. This crate holds everything those programs decide: how a device
//! path becomes a null-terminated byte sequence, in which order the chip is
//! opened, reported on and released, and how the library's version token
//! becomes a line of text.

pub mod chip;
pub mod cstr;
pub mod lifecycle;
pub mod runs;
pub mod version;
