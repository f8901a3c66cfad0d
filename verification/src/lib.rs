//! Model and orchestration rules of a renderer that computes an image on the
//! GPU, stages it through an intermediate texture and shows it on a
//! full-screen quad.
//!
//! The library holds every descriptor, binding table and command sequence as
//! plain values and proves the rules that couple them. Talking to the device
//! is left to the caller, who turns these values into GPU objects and calls.

pub mod app;
pub mod rendering;
