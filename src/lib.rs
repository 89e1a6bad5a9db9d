//! A terminal runner game: the runner jumps over an obstacle that scrolls toward
//! it, scores a point for each pass and loses on collision. The library holds the
//! simulation, the key decoding and the rendering of a frame as text.

pub mod frame;
pub mod game;
pub mod input;
pub mod laws;
