//! A minimal real-time framework for a 2D arcade game: a fixed-timestep
//! frame scheduler, an edge-triggered input model, a pluggable view state
//! machine, and the rectangle/sprite-sheet geometry the views rely on.
//!
//! Everything that decides or computes lives here and is verified; the
//! platform work (window, textures, timers, the raw event queue) is left to
//! the embedding program, which hands plain values in and carries plain
//! values out.

pub mod clock;
pub mod data;
pub mod events;
pub mod gfx;
pub mod phi;
pub mod views;
