//! The theme environment: its keys, the colours stored under them and the
//! palette that fills it.

pub mod color;
pub mod key;
pub mod theme;
