//! Rule-resolution core of a small real-time merging game: the player drags
//! colored slime tokens across a 2D field, merges them by dropping one onto
//! another, and defeats spider invaders with sufficiently large,
//! correctly-colored slimes before they cross the garden boundary.
//!
//! The library holds the verified interaction and rule engine: the
//! hover/drag state machine, the merge/combat resolver, the spawn and wave
//! directors, and the top-level phase machine. Rendering, physics
//! integration and pointer-to-world transformation are collaborators that
//! feed plain values in and out.

pub mod color;
pub mod game;
pub mod geom;
pub mod interact;
pub mod resolve;
mod rng;
pub mod wave;
pub mod world;
