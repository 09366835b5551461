//! A tile renderer's logic: the unit quad, the tile grid laid over a window,
//! the orthographic convention, the texture row order and the frame pacing.
pub mod geometry;
pub mod grid;
pub mod texture;
pub mod projection;
pub mod frame_loop;
