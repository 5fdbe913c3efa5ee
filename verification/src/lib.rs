//! A six-by-five letter board for a terminal word game: the board itself,
//! the arithmetic that lays its cells out on a character grid, and the
//! keyboard-driven column cursor.

pub mod app;
pub mod board;
pub mod cursor;
pub mod error;
pub mod geometry;
pub mod glyph;
pub mod grid;
pub mod input;
pub mod palette;
pub mod screen;
