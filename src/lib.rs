//! A TUIO 2.0 source simulator: a store of tangible objects on a normalised
//! canvas, a frame producer, and a bit-exact OSC 1.0 encoder for the frames it
//! broadcasts.
//!
//! Positions and velocities are IEEE-754 single-precision values; the library
//! holds each of them as its 32-bit pattern (`f32::to_bits`), which is also
//! exactly what goes on the wire.

pub mod osc;
pub mod state;
pub mod tuio;
pub mod frame;
pub mod commands;
pub mod events;
pub mod hub;
pub mod decode;
pub mod laws;
