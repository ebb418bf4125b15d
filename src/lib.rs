//! Per-frame latency accounting for a remote-rendering video pipeline, and the
//! bitrate controller fed by it.
//!
//! Instants are nanoseconds on a monotonic clock and durations are
//! nanoseconds; the caller reads the clock and hands the reading in.
//! Multipliers and probabilities are fixed-point values in parts per million.
pub mod time;
pub mod history;
pub mod table;
pub mod window;
pub mod records;
pub mod packets;
pub mod config;
pub mod bitrate;
pub mod server_statistics;
pub mod client_statistics;
