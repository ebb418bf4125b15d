//! The per-frame record that the client finalizes and hands to the server.
use vstd::prelude::*;

verus! {

/// What the client measured of one frame. Durations are in nanoseconds.
#[derive(Clone, Copy, Debug, PartialEq, Eq, Structural)]
pub struct ClientStatistics {
    pub target_timestamp: u64,
    pub frame_interval: u64,
    pub video_decode: u64,
    pub video_decoder_queue: u64,
    pub rendering: u64,
    pub vsync_queue: u64,
    pub total_pipeline_latency: u64,
    pub jitter_avg_frame: u64,
    pub frame_span: u64,
    pub frame_interarrival: u64,
    pub rx_bytes: u64,
    pub bytes_in_frame: u64,
    pub bytes_in_frame_app: u64,
    pub filtered_ow_delay: i64,
    pub rx_shard_counter: u32,
    pub duplicated_shard_counter: u32,
    pub highest_rx_frame_index: u32,
    pub highest_rx_shard_index: u32,
    pub frames_skipped: u32,
    pub frames_dropped: u32,
}

/// A record for `target_timestamp` with every measurement zero.
pub open spec fn blank_client_statistics(target_timestamp: u64) -> ClientStatistics {
    ClientStatistics {
        target_timestamp,
        frame_interval: 0,
        video_decode: 0,
        video_decoder_queue: 0,
        rendering: 0,
        vsync_queue: 0,
        total_pipeline_latency: 0,
        jitter_avg_frame: 0,
        frame_span: 0,
        frame_interarrival: 0,
        rx_bytes: 0,
        bytes_in_frame: 0,
        bytes_in_frame_app: 0,
        filtered_ow_delay: 0,
        rx_shard_counter: 0,
        duplicated_shard_counter: 0,
        highest_rx_frame_index: 0,
        highest_rx_shard_index: 0,
        frames_skipped: 0,
        frames_dropped: 0,
    }
}

impl ClientStatistics {
    /// A record for `target_timestamp` with every measurement zero.
    pub fn blank(target_timestamp: u64) -> (r: Self)
        ensures
            r == blank_client_statistics(target_timestamp),
    {
        ClientStatistics {
            target_timestamp,
            frame_interval: 0,
            video_decode: 0,
            video_decoder_queue: 0,
            rendering: 0,
            vsync_queue: 0,
            total_pipeline_latency: 0,
            jitter_avg_frame: 0,
            frame_span: 0,
            frame_interarrival: 0,
            rx_bytes: 0,
            bytes_in_frame: 0,
            bytes_in_frame_app: 0,
            filtered_ow_delay: 0,
            rx_shard_counter: 0,
            duplicated_shard_counter: 0,
            highest_rx_frame_index: 0,
            highest_rx_shard_index: 0,
            frames_skipped: 0,
            frames_dropped: 0,
        }
    }
}

/// Counters that the transport reports for one received frame.
#[derive(Clone, Copy, Debug, PartialEq, Eq, Structural)]
pub struct VideoStatsRx {
    pub jitter_avg_frame: u64,
    pub frame_span: u64,
    pub frame_interarrival: u64,
    pub rx_bytes: u64,
    pub bytes_in_frame: u64,
    pub bytes_in_frame_app: u64,
    pub filtered_ow_delay: i64,
    pub rx_shard_counter: u32,
    pub duplicated_shard_counter: u32,
    pub highest_rx_frame_index: u32,
    pub highest_rx_shard_index: u32,
    pub frames_skipped: u32,
    pub frames_dropped: u32,
}

/// `s` with the transport's counters of `v` merged in.
pub open spec fn merged_stats(s: ClientStatistics, v: VideoStatsRx) -> ClientStatistics {
    ClientStatistics {
        jitter_avg_frame: v.jitter_avg_frame,
        frame_span: v.frame_span,
        frame_interarrival: v.frame_interarrival,
        rx_bytes: v.rx_bytes,
        bytes_in_frame: v.bytes_in_frame,
        bytes_in_frame_app: v.bytes_in_frame_app,
        filtered_ow_delay: v.filtered_ow_delay,
        rx_shard_counter: v.rx_shard_counter,
        duplicated_shard_counter: v.duplicated_shard_counter,
        highest_rx_frame_index: v.highest_rx_frame_index,
        highest_rx_shard_index: v.highest_rx_shard_index,
        frames_skipped: v.frames_skipped,
        frames_dropped: v.frames_dropped,
        ..s
    }
}

} // verus!
