//! The verified core of an audio-driven scene: the per-frame scheduler, the
//! start-up sequence, the sizing of spectral snapshots and the fixed draw plan.
//!
//! Everything here works on plain values. The host environment (audio graph,
//! capture device, rendering context, frame timer) is driven by the caller,
//! which feeds the outcomes of its work back into these state machines.

pub mod convert;
pub mod error;
pub mod program;
pub mod render;
pub mod scheduler;
pub mod spectrum;
pub mod startup;
