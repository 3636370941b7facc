//! A procedural, configuration-driven particle animation engine.
//!
//! The engine emits, ages, moves, colors and retires transient visual
//! entities ("particles") each simulation tick. Motion and appearance are
//! governed by declarative configuration rather than hard-coded behavior:
//! a deterministic low-discrepancy color sequence generator, a physically
//! integrated particle lifecycle, a parametric-curve position generator for
//! emitter trajectories, and an emitter that orchestrates spawn cadence,
//! particle pool management and optional turbulence.
//!
//! All scalar quantities are fixed-point numbers: an `i64` counting
//! micro-units ([`fixed::SCALE`] per whole unit). Angles count micro-turns
//! (one full turn is [`fixed::SCALE`] micro-turns). Sources the engine cannot
//! compute itself (coherent-noise samples, wall-clock time, a window surface)
//! are handed in by the caller as plain values.

pub mod color_picker;
pub mod config;
pub mod emitter;
pub mod fixed;
pub mod mover;
pub mod particle;
pub mod prng;
pub mod trig;
