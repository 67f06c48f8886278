//! A cellular automaton in the style of Conway's Game of Life, on a bounded
//! grid, advanced one generation at a time by interchangeable schedulers that
//! all produce the same next generation.

pub mod cell;
pub mod grid;
pub mod scheduler;
pub mod game;
pub mod profiler;
