//! A verified core for small windowed demo programs.
//!
//! The library holds the decision logic of a single-threaded windowing
//! application: the controller that maps live windows to their state and
//! turns platform events into actions, the per-frame draw plan, the overlay
//! (color picker) state, the pixel-format selection rule, and the shader
//! build protocol. Platform work (the event loop, the GPU, the compositor)
//! stays outside: a driver performs the actions this library decides on.

pub mod color;
pub mod config;
pub mod controller;
pub mod frame;
pub mod overlay;
pub mod pixels;
pub mod shader;
