//! A circular progress indicator: its configurable state, the geometry of its rings,
//! and the exact sequence of drawing operations that one paint performs.

pub mod color;
pub mod context;
pub mod geometry;
pub mod render;
pub mod state;
pub mod text;
