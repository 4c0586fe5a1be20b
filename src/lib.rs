//! A small tile world: a generated wall map and one car that moves over it
//! one grid unit per held direction, with the mapping from grid to screen.

pub mod grid;
pub mod screen;
pub mod world;
