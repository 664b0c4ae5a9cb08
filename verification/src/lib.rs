//! Decodes radio-frequency timing pulses from a single GPIO edge-interrupt
//! line into structured weather readings, and stabilizes those readings
//! against transmission noise before they are handed to a storage sink.
//!
//! The pipeline, leaf-first:
//! - [`classify`](classify): maps a raw inter-edge duration (microseconds)
//!   to one of five symbols.
//! - frame assembly: accumulates raw durations between a sync-start and the
//!   next sync-end pulse, bounded and self-resetting.
//! - [`decode`](decode): turns a completed 40-bit frame into temperature,
//!   humidity and channel.
//! - consensus: buffers decoded readings per channel and only releases a
//!   reading once a quiescence window has elapsed and several decodes agree.
//!
//! All I/O (GPIO acquisition, wall-clock time, the sink write) stays with the
//! caller: every function here works on plain values and is verified.

pub mod classify;
pub mod config;
pub mod consensus;
pub mod decode;
pub mod pipeline;
pub mod reading;

pub use classify::Symbol;
pub use classify::classify;
pub use config::AppConfig;
pub use decode::decode;
pub use decode::temp_f_tenths;
pub use pipeline::IngestionState;
pub use reading::WeatherReading;
