//! Descriptors, binding tables and the per-frame command sequence.

pub mod binding;
pub mod flags;
pub mod frame;
pub mod geometry;
pub mod pipeline;
pub mod renderer;
pub mod surface;
pub mod texture;
