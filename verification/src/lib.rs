//! Verified core of a progressive GPU ray tracer.
//!
//! The library owns the logic that can be stated and proved over plain
//! values: the orbit camera's clamping rules (in fixed-point units), the
//! per-frame accumulation state machine with its dispatch sizing and
//! byte-exact uniform layout, the frame-rate counter, and the mesh text
//! parser. The GPU device, the window system and all floating-point
//! matrix math live outside, in the thin host around this crate.

pub mod camera;
pub mod fps;
pub mod model;
pub mod obj;
pub mod renderer;
pub mod text;
