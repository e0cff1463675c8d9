//! Low-latency H.264 encoding over VA-API: configuration, frame checks and the encoder protocol.

pub mod cadence;
pub mod config;
pub mod drm;
pub mod encoder;
pub mod error;
pub mod host;
pub mod laws;
pub mod opening;
pub mod operations;
pub mod protocol;
