use stream_statistics::packets::ClientStatistics;
use stream_statistics::records::NominalBitrateStats;
use stream_statistics::server_statistics::{HistoryFrame, StatisticsManager};

const MS: u64 = 1_000_000;

fn tracker() -> StatisticsManager {
    StatisticsManager::new(16, 10 * MS, 2_000, 42, 0)
}

fn acknowledging(ts: u64, frame: u32, shard: u32, rx: u32) -> ClientStatistics {
    ClientStatistics {
        highest_rx_frame_index: frame,
        highest_rx_shard_index: shard,
        rx_shard_counter: rx,
        ..ClientStatistics::blank(ts)
    }
}

#[test]
fn shard_loss_across_skipped_frames() {
    let mut s = tracker();
    s.report_tracking_received(1, 0);
    s.report_tracking_received(3, 0);
    s.report_frame_sent(1, 5, 10);
    s.report_frame_sent(2, 6, 4);
    s.report_frame_sent(3, 7, 6);
    let first = s.report_statistics(acknowledging(1, 5, 3, 4), 1);
    assert_eq!(first.graph.unwrap().shard_loss_server, 0);
    let second = s.report_statistics(acknowledging(3, 7, 2, 9), 2);
    let graph = second.graph.unwrap();
    assert_eq!(graph.shard_loss_server, 4);
    assert_eq!(graph.frame_index, 7);
}

#[test]
fn shard_loss_within_same_frame() {
    let mut s = tracker();
    s.report_tracking_received(1, 0);
    s.report_frame_sent(1, 5, 10);
    s.report_statistics(acknowledging(1, 5, 3, 4), 1);
    let r = s.report_statistics(acknowledging(1, 5, 8, 2), 2);
    assert_eq!(r.graph.unwrap().shard_loss_server, 3);
    let r = s.report_statistics(acknowledging(1, 5, 8, 2), 3);
    assert_eq!(r.graph.unwrap().shard_loss_server, 0);
}

#[test]
fn shard_loss_is_floored_at_zero() {
    let mut s = tracker();
    s.report_tracking_received(1, 0);
    let r = s.report_statistics(acknowledging(1, 0, 0, 50), 1);
    assert_eq!(r.graph.unwrap().shard_loss_server, 0);
}

#[test]
fn network_latency_is_the_residual() {
    let mut s = tracker();
    s.report_tracking_received(9, 1_000);
    s.report_frame_present(9, 0, 3_000);
    s.report_frame_composed(9, 0, 6_000);
    assert_eq!(s.report_frame_encoded(9, 1_000, true, 10_000), 4_000);
    let c = ClientStatistics {
        total_pipeline_latency: 100_000,
        video_decode: 1_000,
        video_decoder_queue: 2_000,
        rendering: 3_000,
        vsync_queue: 4_000,
        ..ClientStatistics::blank(9)
    };
    let r = s.report_statistics(c, 100);
    assert_eq!(r.game_time_latency, 2_000);
    assert_eq!(r.network_latency, 81_000);
    let g = r.graph.unwrap();
    assert_eq!(g.server_compositor_ns, 3_000);
    assert_eq!(g.encoder_ns, 4_000);
    assert_eq!(g.network_ns, 81_000);
    assert!(g.is_idr);
    assert_eq!(g.actual_bitrate_bps, 8_000 * 1_000_000_000 / 81_000);
    assert_eq!(g.client_fps_millihz, 1_000_000);
    assert_eq!(g.server_fps_millihz, 1_000_000);
}

#[test]
fn network_latency_floors_at_zero() {
    let mut s = tracker();
    s.report_tracking_received(9, 0);
    let c = ClientStatistics {
        total_pipeline_latency: 1_000,
        video_decode: 5_000,
        ..ClientStatistics::blank(9)
    };
    let r = s.report_statistics(c, 1);
    assert_eq!(r.network_latency, 0);
    assert_eq!(r.graph.unwrap().actual_bitrate_bps, 0);
}

#[test]
fn unknown_frame_reports_zeros() {
    let mut s = tracker();
    let r = s.report_statistics(ClientStatistics::blank(77), 1_000 * MS);
    assert_eq!(r.network_latency, 0);
    assert_eq!(r.game_time_latency, 0);
    assert!(r.summary.is_none());
    assert!(r.graph.is_none());
}

#[test]
fn summary_every_half_second() {
    let mut s = tracker();
    s.report_battery(42, 750_000, true);
    s.report_battery(7, 100_000, false);
    s.report_tracking_received(1, 0);
    s.report_frame_encoded(1, 1_000, false, 0);
    s.report_packet_loss();
    let r = s.report_statistics(ClientStatistics::blank(1), 600 * MS);
    let sum = r.summary.unwrap();
    assert_eq!(sum.video_packets_total, 1);
    assert_eq!(sum.video_packets_per_sec, 2);
    assert_eq!(sum.video_bits_per_sec, 16_000);
    assert_eq!(sum.packets_lost_total, 1);
    assert_eq!(sum.packets_lost_per_sec, 2);
    assert_eq!(sum.battery_hmd_percent, 75);
    assert!(sum.hmd_plugged);
    let r = s.report_statistics(ClientStatistics::blank(1), 700 * MS);
    assert!(r.summary.is_none());
    let r = s.report_statistics(ClientStatistics::blank(1), 1_001 * MS);
    let sum = r.summary.unwrap();
    assert_eq!(sum.video_packets_total, 1);
    assert_eq!(sum.video_packets_per_sec, 0);
}

#[test]
fn battery_last_write_wins() {
    let mut s = tracker();
    s.report_battery(42, 750_000, true);
    s.report_battery(42, 200_000, false);
    s.report_tracking_received(1, 0);
    let sum = s.report_statistics(ClientStatistics::blank(1), 600 * MS).summary.unwrap();
    assert_eq!(sum.battery_hmd_percent, 20);
    assert!(!sum.hmd_plugged);
}

#[test]
fn graph_carries_last_nominal_stats() {
    let mut s = tracker();
    let stats = NominalBitrateStats { requested_bps: 123, ..NominalBitrateStats::default() };
    s.report_nominal_bitrate_stats(stats);
    s.report_tracking_received(1, 0);
    let g = s.report_statistics(ClientStatistics::blank(1), 1).graph.unwrap();
    assert_eq!(g.nominal_bitrate, stats);
}

#[test]
fn throughputs_guard_zero_divisors() {
    let mut s = tracker();
    s.report_tracking_received(1, 0);
    let c = ClientStatistics {
        rx_bytes: 1_000,
        bytes_in_frame: 500,
        bytes_in_frame_app: 250,
        frame_interarrival: 0,
        frame_span: 2 * MS,
        frames_skipped: 2,
        frames_dropped: 3,
        ..ClientStatistics::blank(1)
    };
    let g = s.report_statistics(c, 1).graph.unwrap();
    assert_eq!(g.network_throughput_bps, 0);
    assert_eq!(g.application_throughput_bps, 0);
    assert_eq!(g.peak_network_throughput_bps, 2_000_000);
    assert_eq!(g.frame_loss, 5);
}

#[test]
fn vsync_countdown_shrinks_then_wraps() {
    let mut s = tracker();
    assert_eq!(s.duration_until_next_vsync(3 * MS), 7 * MS);
    assert_eq!(s.duration_until_next_vsync(5 * MS), 5 * MS);
    assert_eq!(s.duration_until_next_vsync(10 * MS), 0);
    assert_eq!(s.duration_until_next_vsync(25 * MS), 5 * MS);
    assert_eq!(s.duration_until_next_vsync(29 * MS), MS);
    assert_eq!(s.duration_until_next_vsync(31 * MS), 9 * MS);
}

#[test]
fn pose_offset_is_budget_minus_mean() {
    let s = tracker();
    assert_eq!(s.video_pipeline_latency_average(), 0);
    assert_eq!(s.tracker_pose_time_offset(), 20 * MS);
}

#[test]
fn duplicate_tracking_report_keeps_first_instant() {
    let mut s = tracker();
    s.report_tracking_received(1, 1_000);
    s.report_tracking_received(1, 5_000);
    s.report_frame_present(1, 0, 8_000);
    let r = s.report_statistics(ClientStatistics::blank(1), 9_000);
    assert_eq!(r.game_time_latency, 7_000);
}

#[test]
fn present_offset_shifts_instant_back() {
    let mut s = tracker();
    s.report_tracking_received(1, 1_000);
    s.report_frame_present(1, 500, 8_000);
    let r = s.report_statistics(ClientStatistics::blank(1), 9_000);
    assert_eq!(r.game_time_latency, 6_500);
}

#[test]
fn fresh_frame_starts_all_instants_together() {
    let f = HistoryFrame::new(3, 11);
    assert_eq!(f.tracking_received, 11);
    assert_eq!(f.frame_encoded, 11);
    assert_eq!(f.video_packet_bytes, 0);
}
