//! A terminal rain/snow particle effect, as a verified library.
//!
//! The library owns the whole simulation: spawning, fixed-point motion
//! integration with horizontal wrap-around, grounding and lifetime pruning,
//! and the per-frame draw plan with optional gradient coloring.  Positions
//! and speeds are kept in thousandths of a terminal cell, so every step of
//! the physics is exact integer arithmetic.  Terminal I/O, argument parsing
//! and signal handling live outside the library; it only ever exchanges
//! plain values with them.

pub mod color;
pub mod config;
pub mod engine;
pub mod text;
