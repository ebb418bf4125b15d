use stream_statistics::client_statistics::StatisticsManager;
use stream_statistics::packets::VideoStatsRx;

const MS: u64 = 1_000_000;

fn stats(rx_shard_counter: u32) -> VideoStatsRx {
    VideoStatsRx {
        jitter_avg_frame: 1,
        frame_span: 2,
        frame_interarrival: 3,
        rx_bytes: 4,
        bytes_in_frame: 5,
        bytes_in_frame_app: 6,
        filtered_ow_delay: -7,
        rx_shard_counter,
        duplicated_shard_counter: 9,
        highest_rx_frame_index: 10,
        highest_rx_shard_index: 11,
        frames_skipped: 12,
        frames_dropped: 13,
    }
}

#[test]
fn history_never_exceeds_capacity() {
    let mut c = StatisticsManager::new(2, 10 * MS, 1_500, 0);
    c.report_input_acquired(1, 100);
    c.report_input_acquired(2, 200);
    c.report_input_acquired(3, 300);
    assert_eq!(c.history_len(), 2);
    c.report_input_acquired(3, 400);
    assert_eq!(c.history_len(), 2);
    // frame 1 was evicted: its statistics are dropped
    c.report_video_statistics(1, stats(1));
    assert_eq!(c.summary(1), None);
}

#[test]
fn duplicate_creation_keeps_first_instant() {
    let mut c = StatisticsManager::new(4, 10 * MS, 0, 0);
    c.report_input_acquired(3, 300);
    c.report_input_acquired(3, 999);
    c.report_submit(3, 0, 2_000);
    c.report_video_statistics(3, stats(0));
    assert_eq!(c.summary(3).unwrap().total_pipeline_latency, 1_700);
}

#[test]
fn stage_durations_and_total_latency() {
    let mut c = StatisticsManager::new(4, 10 * MS, 1_500, 0);
    c.report_input_acquired(3, 300);
    c.report_video_packet_received(3, 1_000);
    c.report_frame_decoded(3, 1_500);
    c.report_compositor_start(3, 1_700);
    c.report_submit(3, 400, 2_000);
    c.report_video_statistics(3, stats(8));
    let s = c.summary(3).unwrap();
    assert_eq!(s.video_decode, 500);
    assert_eq!(s.video_decoder_queue, 200);
    assert_eq!(s.rendering, 300);
    assert_eq!(s.vsync_queue, 400);
    assert_eq!(s.total_pipeline_latency, 2_100);
    assert_eq!(s.frame_interval, 2_400);
    assert_eq!(s.rx_shard_counter, 8);
    assert_eq!(s.filtered_ow_delay, -7);
    assert_eq!(s.frames_dropped, 13);
    assert_eq!(c.average_total_pipeline_latency(), 2_100);
    assert_eq!(c.tracker_prediction_offset(), 0);
}

#[test]
fn out_of_order_reports_give_zero_durations() {
    let mut c = StatisticsManager::new(4, 10 * MS, 0, 0);
    c.report_input_acquired(3, 5_000);
    c.report_video_packet_received(3, 6_000);
    c.report_frame_decoded(3, 1_000);
    c.report_compositor_start(3, 1_000);
    c.report_submit(3, 0, 1_000);
    c.report_video_statistics(3, stats(0));
    let s = c.summary(3).unwrap();
    assert_eq!(s.video_decode, 0);
    assert_eq!(s.video_decoder_queue, 0);
    assert_eq!(s.rendering, 0);
    assert_eq!(s.total_pipeline_latency, 0);
}

#[test]
fn summary_is_taken_once() {
    let mut c = StatisticsManager::new(4, 10 * MS, 0, 0);
    c.report_input_acquired(5, 0);
    c.report_video_statistics(5, stats(1));
    assert!(c.summary(5).is_some());
    assert_eq!(c.summary(5), None);
    assert_eq!(c.summary(6), None);
}

#[test]
fn frame_interval_follows_consecutive_vsyncs() {
    let mut c = StatisticsManager::new(4, 10 * MS, 0, 0);
    c.report_input_acquired(1, 0);
    c.report_input_acquired(2, 0);
    c.report_submit(1, 1_000, 10_000);
    c.report_submit(2, 1_000, 26_000);
    c.report_video_statistics(2, stats(0));
    assert_eq!(c.summary(2).unwrap().frame_interval, 16_000);
}

#[test]
fn prediction_offset_subtracts_runtime_latency() {
    let mut c = StatisticsManager::new(4, 10 * MS, 1_500, 0);
    c.report_input_acquired(1, 0);
    c.report_submit(1, 0, 40 * MS);
    assert_eq!(c.average_total_pipeline_latency(), 40 * MS);
    assert_eq!(c.tracker_prediction_offset(), 25 * MS);
}
