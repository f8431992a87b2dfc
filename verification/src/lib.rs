//! Core of a real-time stress-test simulation: a batch entity spawner,
//! a per-frame transform updater, windowed FPS telemetry, and the frame
//! orchestrator that ties them together. Times are carried as integer
//! milliseconds and rates as integer milli-units, so every rule here is
//! checked by the verifier; rendering and windowing live outside.

pub mod config;
pub mod entity;
pub mod environment;
pub mod sim;
pub mod spawner;
pub mod telemetry;
pub mod text_out;
