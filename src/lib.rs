//! Copy hard-to-type Unicode characters, chosen by name, to the clipboard.
//!
//! [`symbol`] maps each name to its character; [`delivery`] decides, from what
//! the clipboard backends report, whether the character reached the clipboard.
pub mod delivery;
pub mod symbol;
