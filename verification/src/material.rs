//! The radio control and the plain values it exchanges with its host.

pub mod geometry;
pub mod host;
pub mod laws;
pub mod radio;
pub mod value;

pub use radio::Radio;
pub use radio::RadioGroup;
