//! Material-style theme colours and an animated radio control, as a
//! toolkit-independent core.
//!
//! A retained-mode GUI host owns the widget tree, the pointer, the clock and
//! the drawing surface. This crate holds what a radio control decides and
//! computes in between: which colours a theme stores under which key, how a
//! control answers each event the host delivers, how large it wants to be
//! and what it draws. Every function works on plain values; the host adapter
//! converts at the boundary.
//!
//! Distances are fixed-point numbers, see [`material::geometry`].

pub mod env;
pub mod material;
