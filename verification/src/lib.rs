//! Core of a small fixed-step arcade game: a player slides left and right
//! along the ground while spheres spawn on a timer above it and fall at a
//! constant rate; touching one collects it, removing it and raising the
//! score.
//!
//! The library is the simulation alone. A host drives it by calling
//! [`sim::tick`] once per step with the elapsed time and the current
//! directional input, and renders the [`sim::GameEvent`] values that each
//! tick returns; windowing, drawing and raw input polling stay with the
//! host.
//!
//! All world coordinates are fixed-point: an axis value counts hundredths
//! of a world unit, so the per-tick speeds of `5` and the pickup radius of
//! `100` in [`params`] stand for 0.05 and 1.0 world units. Motion is a
//! fixed increment per tick, not scaled by the tick's delta time; only the
//! spawn timer consumes real elapsed time.

pub mod collision;
pub mod laws;
pub mod motion;
pub mod params;
pub mod sim;
pub mod spawner;
pub mod state;
pub mod vec3;
