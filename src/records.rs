//! Records handed to the encoder and to the telemetry sink.
use vstd::prelude::*;

verus! {

/// The ceilings that the last bitrate decision went through, for display.
#[derive(Clone, Copy, Debug, PartialEq, Eq, Structural)]
pub struct NominalBitrateStats {
    pub scaled_calculated_bps: Option<u64>,
    pub decoder_latency_limiter_bps: Option<u64>,
    pub network_latency_limiter_bps: Option<u64>,
    pub encoder_latency_limiter_bps: Option<u64>,
    pub manual_max_bps: Option<u64>,
    pub manual_min_bps: Option<u64>,
    pub requested_bps: u64,
}

/// Stats that record no ceiling and a zero request.
pub open spec fn empty_nominal_stats() -> NominalBitrateStats {
    NominalBitrateStats {
        scaled_calculated_bps: None,
        decoder_latency_limiter_bps: None,
        network_latency_limiter_bps: None,
        encoder_latency_limiter_bps: None,
        manual_max_bps: None,
        manual_min_bps: None,
        requested_bps: 0,
    }
}

impl Default for NominalBitrateStats {
    fn default() -> (r: Self)
        ensures
            r == empty_nominal_stats(),
    {
        NominalBitrateStats {
            scaled_calculated_bps: None,
            decoder_latency_limiter_bps: None,
            network_latency_limiter_bps: None,
            encoder_latency_limiter_bps: None,
            manual_max_bps: None,
            manual_min_bps: None,
            requested_bps: 0,
        }
    }
}

/// The quantities that one step of the simple heuristic decided on.
/// Frequencies are in millihertz.
#[derive(Clone, Copy, Debug, PartialEq, Eq, Structural)]
pub struct HeuristicStats {
    pub frame_interval_ns: u64,
    pub server_fps_millihz: u64,
    pub steps_bps: u64,
    pub network_heur_fps_millihz: u64,
    pub rtt_avg_heur_ns: u64,
    pub random_prob_ppm: u64,
    pub threshold_fps_millihz: u64,
    pub threshold_rtt_ns: u64,
    pub threshold_u_ppm: u64,
    pub requested_bitrate_bps: u64,
}

/// Heuristic stats that are all zero.
pub open spec fn zero_heuristic_stats() -> HeuristicStats {
    HeuristicStats {
        frame_interval_ns: 0,
        server_fps_millihz: 0,
        steps_bps: 0,
        network_heur_fps_millihz: 0,
        rtt_avg_heur_ns: 0,
        random_prob_ppm: 0,
        threshold_fps_millihz: 0,
        threshold_rtt_ns: 0,
        threshold_u_ppm: 0,
        requested_bitrate_bps: 0,
    }
}

impl Default for HeuristicStats {
    fn default() -> (r: Self)
        ensures
            r == zero_heuristic_stats(),
    {
        HeuristicStats {
            frame_interval_ns: 0,
            server_fps_millihz: 0,
            steps_bps: 0,
            network_heur_fps_millihz: 0,
            rtt_avg_heur_ns: 0,
            random_prob_ppm: 0,
            threshold_fps_millihz: 0,
            threshold_rtt_ns: 0,
            threshold_u_ppm: 0,
            requested_bitrate_bps: 0,
        }
    }
}

/// New encoder settings: a bitrate and a framerate in millihertz, with the
/// ceilings that produced the bitrate.
#[derive(Clone, Copy, Debug, PartialEq, Eq, Structural)]
pub struct EncoderUpdate {
    pub bitrate_bps: u64,
    pub framerate_millihz: u64,
    pub stats: NominalBitrateStats,
}

/// Totals and rates over the last reporting period. Durations are in
/// nanoseconds, frequencies in millihertz.
#[derive(Clone, Copy, Debug, PartialEq, Eq, Structural)]
pub struct StatisticsSummary {
    pub video_packets_total: u64,
    pub video_packets_per_sec: u64,
    pub video_mbytes_total: u64,
    pub video_bits_per_sec: u64,
    pub total_latency_ns: u64,
    pub network_latency_ns: u64,
    pub encode_latency_ns: u64,
    pub decode_latency_ns: u64,
    pub packets_lost_total: u64,
    pub packets_lost_per_sec: u64,
    pub client_fps_millihz: u64,
    pub server_fps_millihz: u64,
    pub battery_hmd_percent: u64,
    pub hmd_plugged: bool,
}

/// The latency breakdown and network figures of one frame. Durations are in
/// nanoseconds, frequencies in millihertz.
#[derive(Clone, Copy, Debug, PartialEq, Eq, Structural)]
pub struct GraphStatistics {
    pub total_pipeline_latency_ns: u64,
    pub game_time_ns: u64,
    pub server_compositor_ns: u64,
    pub encoder_ns: u64,
    pub network_ns: u64,
    pub decoder_ns: u64,
    pub decoder_queue_ns: u64,
    pub client_compositor_ns: u64,
    pub vsync_queue_ns: u64,
    pub client_fps_millihz: u64,
    pub server_fps_millihz: u64,
    pub nominal_bitrate: NominalBitrateStats,
    pub actual_bitrate_bps: u64,
    pub jitter_avg_frame_ns: u64,
    pub frame_span_ns: u64,
    pub frame_interarrival_ns: u64,
    pub rx_bytes: u64,
    pub network_throughput_bps: u64,
    pub peak_network_throughput_bps: u64,
    pub application_throughput_bps: u64,
    pub filtered_ow_delay_ns: i64,
    pub rx_shard_counter: u32,
    pub duplicated_shard_counter: u32,
    pub frames_skipped: u32,
    pub frames_dropped: u32,
    pub frame_loss: u64,
    pub shard_loss_server: u64,
    pub frame_index: u32,
    pub is_idr: bool,
    pub target_timestamp: u64,
}

} // verus!
