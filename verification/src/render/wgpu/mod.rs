//! The geometry handed to the GPU renderer.

pub mod state;
