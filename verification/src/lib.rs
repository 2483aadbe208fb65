//! Orbital-mechanics core: fixed-step n-body propagation, classical
//! orbital-element conversions, and transfer-window (porkchop) search.
//!
//! All quantities are carried as signed Q40 fixed-point numbers held in
//! `i128` (see `fixed`), in kilometre-based units: positions in km,
//! velocities in km/s, gravitational parameters in km^3/s^2, angles in
//! radians and times in seconds. Every arithmetic operation is total and
//! deterministic, so every function of this crate is a pure function of
//! its arguments; the contracts pin each result exactly.

pub mod fixed;
pub mod trig;
pub mod vec3;
pub mod bodies;
pub mod nbody;
pub mod archive;
pub mod keplerian;
pub mod interplanetary;
pub mod porkchop;
pub mod helpers;
