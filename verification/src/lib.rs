//! A synthetic ("dummy") audio-processing backend.
//!
//! When no real audio device is attached, a standalone plugin runner still
//! needs to invoke the plugin's processing routine periodically so that its
//! interface and internal logic keep running.  The driver in this crate
//! fabricates that callback stream: it owns zero-filled sample storage for a
//! main bus and any number of auxiliary buses, synthesizes a playback
//! position that advances by one period per invocation, and paces itself on
//! a wall-clock cadence supplied by the caller.
//!
//! Samples are carried as raw 32-bit words (the bit pattern of an IEEE 754
//! single-precision float); the all-zero word is `+0.0`, so zero-filled
//! storage is silent audio.  Tempo is carried in thousandths of a beat per
//! minute so that fractional tempos need no floating point.

pub mod buffer;
pub mod config;
pub mod dummy;
pub mod transport;
