//! Geometry engine and interaction state machine for a responsive 3x3 board.
//!
//! The board is a square of side `dimension` pixels, divided into nine cells
//! by two vertical and two horizontal separator lines. Every derived
//! coordinate is an exact rational multiple of the dimension with denominator
//! 300, so all geometry is carried in integer units of 1/300 pixel and every
//! computation here is exact.

pub mod geometry;
pub mod hover;
pub mod layout;
