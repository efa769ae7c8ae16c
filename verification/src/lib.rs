//! Host-facing state of an audio plugin instance: performance events, the
//! parameter registry and its update protocol, output buffer bookkeeping, the
//! main-thread task queue and the instance lifecycle.
//!
//! Sample and parameter values are carried as IEEE-754 bit patterns; the
//! arithmetic on them belongs to the caller.

pub mod abi;
pub mod buffer;
pub mod hash;
pub mod ieee;
pub mod midi;
pub mod params;
pub mod plugin;
pub mod tasks;
