//! Conway's Game of Life on a fixed, non-wrapping grid.
//!
//! The grid engine (`grid`) derives each generation from the previous one;
//! `patterns` seeds the first generation from a fixed catalog of classical
//! shapes, and `render` turns a generation into the glyphs a console prints.

pub mod grid;
pub mod patterns;
pub mod render;
pub mod classics;
