//! Core of an interactive visualizer for the Lorenz family of chaotic
//! dynamical systems: a fixed-step Euler integrator over a three-dimensional
//! vector field, a bounded per-trajectory point history, a procedural
//! geometry builder, a free-fly camera state machine, and the per-frame
//! scheduler that ties them together under a pause control.
//!
//! All quantities are fixed-point numbers: signed 64-bit multiples of
//! `1 / fx::SCALE`. Arithmetic saturates at the representable extremes, the
//! fixed-point analogue of a float computation running off to infinity;
//! degenerate values propagate silently and never panic, as the rendering
//! loop demands.

pub mod fx;
pub mod vec3;
pub mod sim;
pub mod trajectory;
pub mod geometry;
pub mod camera;
pub mod mat4;
pub mod world;
