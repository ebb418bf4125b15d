//! Settings of the bitrate controller. A disabled optional limit is `None`.
use vstd::prelude::*;

verus! {

/// Framerate-regime detection: a frame interval that differs from the mean
/// by more than this factor, either way, restarts the frame-interval mean.
#[derive(Clone, Copy, Debug, PartialEq, Eq, Structural)]
pub struct BitrateAdaptiveFramerateConfig {
    pub framerate_reset_threshold_multiplier_ppm: u64,
}

/// Caps the bitrate once encoding takes more than this share of a frame.
#[derive(Clone, Copy, Debug, PartialEq, Eq, Structural)]
pub struct EncoderLatencyLimiter {
    pub max_saturation_multiplier_ppm: u64,
}

/// Lowers a learnt bitrate ceiling after decoding stays slow for a number of
/// consecutive frames.
#[derive(Clone, Copy, Debug, PartialEq, Eq, Structural)]
pub struct DecoderLatencyLimiter {
    pub max_decoder_latency_ms: u64,
    pub latency_overstep_frames: u64,
    pub latency_overstep_multiplier_ppm: u64,
}

/// The strategy that chooses the bitrate.
#[derive(Clone, Copy, Debug, PartialEq, Eq, Structural)]
pub enum BitrateMode {
    /// A fixed bitrate.
    ConstantBps(u64),
    /// Steps the previous target up or down from network observations.
    SimpleHeuristic {
        max_bitrate_bps: Option<u64>,
        min_bitrate_bps: Option<u64>,
        steps_bps: u64,
        capacity_multiplier_ppm: u64,
        threshold_random_uniform_ppm: u64,
        fps_threshold_multiplier_ppm: u64,
        multiplier_rtt_threshold_ppm: u64,
        update_interval_heuristic_ns: u64,
    },
    /// Follows the measured bitrate under latency-derived ceilings.
    Adaptive {
        saturation_multiplier_ppm: u64,
        max_bitrate_bps: Option<u64>,
        min_bitrate_bps: Option<u64>,
        max_network_latency_ms: Option<u64>,
        encoder_latency_limiter: Option<EncoderLatencyLimiter>,
        decoder_latency_limiter: Option<DecoderLatencyLimiter>,
    },
}

#[derive(Clone, Copy, Debug, PartialEq, Eq, Structural)]
pub struct BitrateConfig {
    pub mode: BitrateMode,
    pub adapt_to_framerate: Option<BitrateAdaptiveFramerateConfig>,
}

} // verus!
