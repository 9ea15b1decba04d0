//! Dialog-focus coordination: dialog-target tracking, dialogue-runner
//! lifecycle, completion reaction, and camera-focus retargeting.
//!
//! The host engine drives these pieces once per simulated frame. Here the
//! shared state is explicit and injected: each step is a function from plain
//! values to plain values with a verified contract, and `schedule::run_cycle`
//! strings the steps together in the engine's fixed per-frame order.

pub mod dialog;
pub mod focus;
pub mod geom;
pub mod laws;
pub mod schedule;
pub mod world;
