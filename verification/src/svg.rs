//! Rendering to vector-graphics markup.

pub mod canvas;
