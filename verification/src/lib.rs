//! Acquisition core for an OBD-II datalogger: decode tables for standard
//! PIDs, a generic byte-offset decoder for manufacturer channels, hex-token
//! response parsing, a deterministic telemetry simulator, and the bounded
//! shared buffer drained by a polling consumer.

pub mod buffer;
pub mod channels;
pub mod engine;
pub mod laws;
pub mod hex;
pub mod pids;
pub mod simulator;
pub mod text;
pub mod value;

pub use value::PhysValue;
