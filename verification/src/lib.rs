//! Core of a minimal windowed triangle renderer: the render-loop state
//! machine that plans the GL work of each frame, the fixed shader sources and
//! triangle geometry, the input-event policy, and a bounded signal queue
//! whose producer drops on overflow instead of blocking.

pub mod geometry;
pub mod handler;
pub mod queue;
pub mod shader;
