//! The server side of the per-frame accounting: stage instants of each
//! frame, traffic counters, shard-loss estimation, and the records for the
//! telemetry sink.
use vstd::prelude::*;

use crate::history::{
    create_entry, find_key, has_key, history_wf, key_index, lemma_replace_same_key,
    with_created, Keyed,
};
use crate::packets::ClientStatistics;
use crate::records::{empty_nominal_stats, GraphStatistics, NominalBitrateStats, StatisticsSummary};
use crate::table::{
    find_entry, lemma_upserted_unique, lookup, unique_entry_keys, upsert, upserted,
};
use crate::time::{
    clamp_u64, elapsed, frequency_millihertz, lemma_mul_fits_u128, millihertz, per_second,
    rate_per_second, saturate_u64, saturating_since,
};
use crate::window::{empty_window, SlidingWindowAverage, WindowState};

verus! {

/// The period of the summary record: 500 ms.
pub const FULL_REPORT_INTERVAL_NS: u64 = 500_000_000;

/// The shortest frame interval that frequencies are computed from: 1 ms.
pub const MIN_FPS_INTERVAL_NS: u64 = 1_000_000;

/// Stage instants and size of one frame on the server.
#[derive(Clone, Copy, Debug, PartialEq, Eq, Structural)]
pub struct HistoryFrame {
    pub target_timestamp: u64,
    pub tracking_received: u64,
    pub frame_present: u64,
    pub frame_composed: u64,
    pub frame_encoded: u64,
    pub video_packet_bytes: u64,
    pub total_pipeline_latency: u64,
    pub frame_index: u32,
    pub is_idr: bool,
}

impl Keyed for HistoryFrame {
    open spec fn key_of(&self) -> u64 {
        self.target_timestamp
    }

    fn key(&self) -> (r: u64) {
        self.target_timestamp
    }
}

/// A frame whose tracking sample arrived at `now`; its other instants start
/// there too.
pub open spec fn fresh_frame(target_timestamp: u64, now: u64) -> HistoryFrame {
    HistoryFrame {
        target_timestamp,
        tracking_received: now,
        frame_present: now,
        frame_composed: now,
        frame_encoded: now,
        video_packet_bytes: 0,
        total_pipeline_latency: 0,
        frame_index: 0,
        is_idr: false,
    }
}

impl HistoryFrame {
    /// A frame whose tracking sample arrived at `now`.
    pub fn new(target_timestamp: u64, now: u64) -> (r: Self)
        ensures
            r == fresh_frame(target_timestamp, now),
    {
        HistoryFrame {
            target_timestamp,
            tracking_received: now,
            frame_present: now,
            frame_composed: now,
            frame_encoded: now,
            video_packet_bytes: 0,
            total_pipeline_latency: 0,
            frame_index: 0,
            is_idr: false,
        }
    }
}

/// Charge of a device's battery, in parts per million of full.
#[derive(Clone, Copy, Debug, PartialEq, Eq, Structural)]
pub struct BatteryData {
    pub gauge_value_ppm: u32,
    pub is_plugged: bool,
}

/// What the server tracker returns for one client record: the network and
/// game-time latencies, the summary record when one is due, and the
/// frame's graph record when the frame was known.
#[derive(Clone, Copy, Debug, PartialEq, Eq, Structural)]
pub struct StatisticsReport {
    pub network_latency: u64,
    pub game_time_latency: u64,
    pub summary: Option<StatisticsSummary>,
    pub graph: Option<GraphStatistics>,
}

/// What a server `StatisticsManager` holds.
pub struct ServerStatisticsView {
    pub history: Seq<HistoryFrame>,
    pub max_history_size: nat,
    pub last_full_report_instant: u64,
    pub last_frame_present_instant: u64,
    pub last_frame_present_interval: u64,
    pub video_packets_total: u64,
    pub video_packets_partial_sum: u64,
    pub video_bytes_total: u64,
    pub video_bytes_partial_sum: u64,
    pub packets_lost_total: u64,
    pub packets_lost_partial_sum: u64,
    pub battery_gauges: Seq<(u64, BatteryData)>,
    pub head_device_id: u64,
    pub steamvr_pipeline_latency: u64,
    pub total_pipeline_latency_average: WindowState,
    pub last_vsync_time: u64,
    pub frame_interval: u64,
    pub last_nominal_bitrate_stats: NominalBitrateStats,
    /// Shards of each frame sent, by frame index.
    pub map_frames_spf: Seq<(u64, u64)>,
    pub prev_highest_shard: i64,
    pub prev_highest_frame: i64,
}

impl ServerStatisticsView {
    pub open spec fn wf(self) -> bool {
        &&& history_wf(self.history, self.max_history_size)
        &&& self.total_pipeline_latency_average.wf()
        &&& unique_entry_keys(self.battery_gauges)
        &&& unique_entry_keys(self.map_frames_spf)
        &&& self.prev_highest_shard >= -1
        &&& self.prev_highest_frame >= -1
        &&& self.prev_highest_shard <= u32::MAX
        &&& self.prev_highest_frame <= u32::MAX
    }

    /// The frame with key `ts`, with `f` in its place.
    pub open spec fn with_frame(self, ts: u64, f: HistoryFrame) -> ServerStatisticsView {
        ServerStatisticsView {
            history: self.history.update(key_index(self.history, ts), f),
            ..self
        }
    }

    /// The frame with key `ts`.
    pub open spec fn frame(self, ts: u64) -> HistoryFrame {
        self.history[key_index(self.history, ts)]
    }
}

/// `a + b` over `u64`, saturating.
pub open spec fn sat_add(a: int, b: int) -> int {
    clamp_u64(a + b)
}

/// Bits in `bytes` bytes, saturating.
pub open spec fn bits_of(bytes: u64) -> int {
    clamp_u64(bytes * 8)
}

fn bits_in(bytes: u64) -> (r: u64)
    ensures
        r == bits_of(bytes),
{
    if bytes > u64::MAX / 8 {
        u64::MAX
    } else {
        bytes * 8
    }
}

/// Sum of the shard counts of the frames strictly between `lo` and `hi`.
pub open spec fn shards_between(m: Seq<(u64, u64)>, lo: int, hi: int) -> int
    decreases m.len(),
{
    if m.len() == 0 {
        0
    } else {
        shards_between(m.drop_last(), lo, hi) + if lo < m.last().0 && m.last().0 < hi {
            m.last().1 as int
        } else {
            0
        }
    }
}

/// The entries of frames from `lo` on, in order.
pub open spec fn entries_from(m: Seq<(u64, u64)>, lo: int) -> Seq<(u64, u64)>
    decreases m.len(),
{
    if m.len() == 0 {
        m
    } else {
        let r = entries_from(m.drop_last(), lo);
        if m.last().0 >= lo {
            r.push(m.last())
        } else {
            r
        }
    }
}

/// Shards sent from the acknowledged position (`prev_frame`, `prev_shard`)
/// to (`frame`, `shard`) in a later frame: the rest of the previous frame,
/// every frame in between, and the new frame up to its shard inclusive.
pub open spec fn shards_sent_across(
    m: Seq<(u64, u64)>,
    prev_frame: int,
    prev_shard: int,
    frame: int,
    shard: int,
) -> int {
    let from_prev = if prev_frame >= 0 {
        match lookup(m, prev_frame as u64) {
            Some(c) => elapsed(c as int, prev_shard + 1),
            None => 0,
        }
    } else {
        0
    };
    clamp_u64(from_prev + shards_between(m, prev_frame, frame) + shard + 1)
}

/// The shard accounting after a client record: the new acknowledged
/// position, the pruned shard map and the shards lost, floored at zero.
pub open spec fn shard_loss_step(v: ServerStatisticsView, c: ClientStatistics) -> (
    ServerStatisticsView,
    u64,
) {
    let frame = c.highest_rx_frame_index as int;
    let shard = c.highest_rx_shard_index as int;
    let rx = c.rx_shard_counter as int;
    if v.prev_highest_frame == frame {
        if v.prev_highest_shard < shard {
            (
                ServerStatisticsView { prev_highest_shard: shard as i64, ..v },
                elapsed(shard - v.prev_highest_shard, rx) as u64,
            )
        } else {
            (v, 0)
        }
    } else if v.prev_highest_frame < frame {
        let sent = shards_sent_across(
            v.map_frames_spf,
            v.prev_highest_frame as int,
            v.prev_highest_shard as int,
            frame,
            shard,
        );
        (
            ServerStatisticsView {
                prev_highest_frame: frame as i64,
                prev_highest_shard: shard as i64,
                map_frames_spf: entries_from(v.map_frames_spf, frame),
                ..v
            },
            elapsed(sent, rx) as u64,
        )
    } else {
        (v, 0)
    }
}

/// Game time, server compositor, encoder and network latency of a frame.
/// The network latency is what the client's total leaves after every other
/// stage, floored at zero.
pub open spec fn latency_breakdown(f: HistoryFrame, c: ClientStatistics) -> (u64, u64, u64, u64) {
    let game = elapsed(f.frame_present as int, f.tracking_received as int);
    let compositor = elapsed(f.frame_composed as int, f.frame_present as int);
    let encoder = elapsed(f.frame_encoded as int, f.frame_composed as int);
    let others = game + compositor + encoder + c.video_decode + c.video_decoder_queue + c.rendering
        + c.vsync_queue;
    let network = elapsed(c.total_pipeline_latency as int, others);
    (game as u64, compositor as u64, encoder as u64, network as u64)
}

/// Whether a summary record is due at `now`.
pub open spec fn full_report_due(last: u64, now: u64) -> bool {
    last + FULL_REPORT_INTERVAL_NS < now
}

/// The summary record for the period that ends with this client record.
pub open spec fn summary_record(
    v: ServerStatisticsView,
    c: ClientStatistics,
    network: u64,
    encoder: u64,
    client_fps: u64,
    server_fps: u64,
) -> StatisticsSummary {
    let battery = match lookup(v.battery_gauges, v.head_device_id) {
        Some(b) => b,
        None => BatteryData { gauge_value_ppm: 0, is_plugged: false },
    };
    StatisticsSummary {
        video_packets_total: v.video_packets_total,
        video_packets_per_sec: per_second(
            v.video_packets_partial_sum as int,
            FULL_REPORT_INTERVAL_NS as int,
        ) as u64,
        video_mbytes_total: v.video_bytes_total / 1_000_000,
        video_bits_per_sec: per_second(
            bits_of(v.video_bytes_partial_sum),
            FULL_REPORT_INTERVAL_NS as int,
        ) as u64,
        total_latency_ns: c.total_pipeline_latency,
        network_latency_ns: network,
        encode_latency_ns: encoder,
        decode_latency_ns: c.video_decode,
        packets_lost_total: v.packets_lost_total,
        packets_lost_per_sec: per_second(
            v.packets_lost_partial_sum as int,
            FULL_REPORT_INTERVAL_NS as int,
        ) as u64,
        client_fps_millihz: client_fps,
        server_fps_millihz: server_fps,
        battery_hmd_percent: (battery.gauge_value_ppm / 10_000) as u64,
        hmd_plugged: battery.is_plugged,
    }
}

/// The graph record of one frame.
pub open spec fn graph_record(
    v: ServerStatisticsView,
    f: HistoryFrame,
    c: ClientStatistics,
    client_fps: u64,
    server_fps: u64,
    shard_loss: u64,
) -> GraphStatistics {
    let (game, compositor, encoder, network) = latency_breakdown(f, c);
    GraphStatistics {
        total_pipeline_latency_ns: c.total_pipeline_latency,
        game_time_ns: game,
        server_compositor_ns: compositor,
        encoder_ns: encoder,
        network_ns: network,
        decoder_ns: c.video_decode,
        decoder_queue_ns: c.video_decoder_queue,
        client_compositor_ns: c.rendering,
        vsync_queue_ns: c.vsync_queue,
        client_fps_millihz: client_fps,
        server_fps_millihz: server_fps,
        nominal_bitrate: v.last_nominal_bitrate_stats,
        actual_bitrate_bps: per_second(bits_of(f.video_packet_bytes), network as int) as u64,
        jitter_avg_frame_ns: c.jitter_avg_frame,
        frame_span_ns: c.frame_span,
        frame_interarrival_ns: c.frame_interarrival,
        rx_bytes: c.rx_bytes,
        network_throughput_bps: per_second(bits_of(c.rx_bytes), c.frame_interarrival as int) as u64,
        peak_network_throughput_bps: per_second(bits_of(c.bytes_in_frame), c.frame_span as int)
            as u64,
        application_throughput_bps: per_second(
            bits_of(c.bytes_in_frame_app),
            c.frame_interarrival as int,
        ) as u64,
        filtered_ow_delay_ns: c.filtered_ow_delay,
        rx_shard_counter: c.rx_shard_counter,
        duplicated_shard_counter: c.duplicated_shard_counter,
        frames_skipped: c.frames_skipped,
        frames_dropped: c.frames_dropped,
        frame_loss: (c.frames_skipped + c.frames_dropped) as u64,
        shard_loss_server: shard_loss,
        frame_index: f.frame_index,
        is_idr: f.is_idr,
        target_timestamp: c.target_timestamp,
    }
}

/// The tracker's state and report after the client's record `c` arrives at
/// `now`.
pub open spec fn statistics_step(v: ServerStatisticsView, c: ClientStatistics, now: u64) -> (
    ServerStatisticsView,
    StatisticsReport,
) {
    let ts = c.target_timestamp;
    if !has_key(v.history, ts) {
        (v, StatisticsReport { network_latency: 0, game_time_latency: 0, summary: None, graph: None })
    } else {
        let f = HistoryFrame { total_pipeline_latency: c.total_pipeline_latency, ..v.frame(ts) };
        let (game, compositor, encoder, network) = latency_breakdown(f, c);
        let client_fps = millihertz(c.frame_interval as int, MIN_FPS_INTERVAL_NS as int) as u64;
        let server_fps = millihertz(
            v.last_frame_present_interval as int,
            MIN_FPS_INTERVAL_NS as int,
        ) as u64;
        let due = full_report_due(v.last_full_report_instant, now);
        let v1 = v.with_frame(ts, f);
        let v2 = if due {
            ServerStatisticsView {
                last_full_report_instant: (v.last_full_report_instant
                    + FULL_REPORT_INTERVAL_NS) as u64,
                video_packets_partial_sum: 0,
                video_bytes_partial_sum: 0,
                packets_lost_partial_sum: 0,
                ..v1
            }
        } else {
            v1
        };
        let (v3, shard_loss) = shard_loss_step(v2, c);
        (
            v3,
            StatisticsReport {
                network_latency: network,
                game_time_latency: game,
                summary: if due {
                    Some(summary_record(v, c, network, encoder, client_fps, server_fps))
                } else {
                    None
                },
                graph: Some(graph_record(v, f, c, client_fps, server_fps, shard_loss)),
            },
        )
    }
}

/// The vsync marker after it is moved forward by whole frame intervals
/// while a full interval past it still lies before `now`.
pub open spec fn vsync_advanced(last: u64, interval: u64, now: u64) -> int {
    if interval == 0 || last + interval >= now {
        last as int
    } else {
        last + ((now - last - 1) / (interval as int)) * interval
    }
}

/// Time from `now` to one interval past the marker, floored at zero.
pub open spec fn until_vsync(last: int, interval: u64, now: u64) -> int {
    if last + interval <= now {
        0
    } else {
        clamp_u64(last + interval - now)
    }
}

/// Called again and again with no report between, the time to the next
/// vsync only shrinks while the deadline is ahead, and once it has passed it
/// starts again from at most one full interval.
pub proof fn lemma_vsync_countdown(last: u64, interval: u64, now1: u64, now2: u64)
    requires
        interval > 0,
        now1 <= now2,
    ensures
        ({
            let l1 = vsync_advanced(last, interval, now1);
            let r1 = until_vsync(l1, interval, now1);
            let l2 = vsync_advanced(l1 as u64, interval, now2);
            let r2 = until_vsync(l2, interval, now2);
            &&& now2 <= l1 + interval ==> l2 == l1 && r2 <= r1
            &&& now2 <= l1 + interval && l1 + interval - now1 <= u64::MAX ==> r2 == r1 - (now2
                - now1)
            &&& now2 > l1 + interval ==> 0 <= r2 <= interval && l2 < now2
        }),
{
    lemma_vsync_advanced(last, interval, now1);
    let l1 = vsync_advanced(last, interval, now1);
    lemma_vsync_advanced(l1 as u64, interval, now2);
}

/// The advanced marker is a whole number of intervals past the old one,
/// at most `now` unless it did not move, and one interval past it reaches
/// `now`.
pub proof fn lemma_vsync_advanced(last: u64, interval: u64, now: u64)
    requires
        interval > 0,
    ensures
        ({
            let l = vsync_advanced(last, interval, now);
            &&& last <= l <= u64::MAX
            &&& l == last || l < now
            &&& l + interval >= now
            &&& (l - last) % (interval as int) == 0
        }),
{
    if last + interval < now {
        let d = now - last;
        let i = interval as int;
        let k = (d - 1) / i;
        assert(0 <= k * i <= d - 1) by (nonlinear_arith)
            requires
                k == (d - 1) / i,
                d > i,
                i > 0,
        ;
        assert(k * i + i >= d) by (nonlinear_arith)
            requires
                k == (d - 1) / i,
                d > i,
                i > 0,
        ;
        assert((k * i) % i == 0) by (nonlinear_arith)
            requires
                i > 0,
        ;
        assert(vsync_advanced(last, interval, now) == last + k * i);
    } else {
        assert(0int % (interval as int) == 0);
    }
}

/// Computes `latency_breakdown`.
fn breakdown_of(f: &HistoryFrame, c: &ClientStatistics) -> (r: (u64, u64, u64, u64))
    ensures
        r == latency_breakdown(*f, *c),
{
    let game = saturating_since(f.frame_present, f.tracking_received);
    let compositor = saturating_since(f.frame_composed, f.frame_present);
    let encoder = saturating_since(f.frame_encoded, f.frame_composed);
    let others: u128 = game as u128 + compositor as u128 + encoder as u128 + c.video_decode as u128
        + c.video_decoder_queue as u128 + c.rendering as u128 + c.vsync_queue as u128;
    let network: u64 = if (c.total_pipeline_latency as u128) >= others {
        (c.total_pipeline_latency as u128 - others) as u64
    } else {
        0
    };
    (game, compositor, encoder, network)
}

/// Computes `clamp_u64(shards_between(m, lo, hi))`.
fn shards_between_of(m: &Vec<(u64, u64)>, lo: i64, hi: i64) -> (r: u64)
    ensures
        r == clamp_u64(shards_between(m@, lo as int, hi as int)),
{
    let len = m.len();
    let mut acc: u64 = 0;
    let mut i: usize = 0;
    while i < len
        invariant
            i <= len,
            len == m@.len(),
            shards_between(m@.subrange(0, i as int), lo as int, hi as int) >= 0,
            acc == clamp_u64(shards_between(m@.subrange(0, i as int), lo as int, hi as int)),
        decreases len - i,
    {
        proof {
            assert(m@.subrange(0, i as int + 1).drop_last() =~= m@.subrange(0, i as int));
        }
        let (frame, count) = m[i];
        if lo < frame as i128 as i64 && (frame as i128) < hi as i128 {
            acc = acc.saturating_add(count);
        }
        i = i + 1;
    }
    proof {
        assert(m@.subrange(0, len as int) =~= m@);
    }
    acc
}

/// Keeping the entries from `lo` on keeps one entry per key.
proof fn lemma_entries_from_unique(m: Seq<(u64, u64)>, lo: int)
    requires
        unique_entry_keys(m),
    ensures
        unique_entry_keys(entries_from(m, lo)),
        forall|a: int|
            0 <= a < entries_from(m, lo).len() ==> exists|j: int|
                0 <= j < m.len() && #[trigger] entries_from(m, lo)[a] == m[j],
    decreases m.len(),
{
    if m.len() > 0 {
        let p = m.drop_last();
        assert(unique_entry_keys(p)) by {
            assert forall|a: int, b: int|
                0 <= a < p.len() && 0 <= b < p.len() && a != b implies p[a].0 != p[b].0 by {
                assert(p[a] == m[a] && p[b] == m[b]);
            }
        }
        lemma_entries_from_unique(p, lo);
        let r = entries_from(p, lo);
        let e = entries_from(m, lo);
        assert forall|a: int| 0 <= a < e.len() implies exists|j: int|
            0 <= j < m.len() && #[trigger] e[a] == m[j] by {
            if a < r.len() {
                assert(e[a] == r[a]);
                let j = choose|j: int| 0 <= j < p.len() && r[a] == p[j];
                assert(e[a] == m[j]);
            } else {
                assert(e[a] == m[m.len() - 1]);
            }
        }
        if m.last().0 >= lo {
            assert forall|a: int, b: int|
                0 <= a < e.len() && 0 <= b < e.len() && a != b implies e[a].0 != e[b].0 by {
                if a < r.len() && b < r.len() {
                    assert(e[a] == r[a] && e[b] == r[b]);
                } else if a < r.len() {
                    assert(e[a] == r[a]);
                    let j = choose|j: int| 0 <= j < p.len() && r[a] == p[j];
                    assert(m[j] == p[j]);
                    assert(e[b] == m[m.len() - 1]);
                } else {
                    assert(e[b] == r[b]);
                    let j = choose|j: int| 0 <= j < p.len() && r[b] == p[j];
                    assert(m[j] == p[j]);
                    assert(e[a] == m[m.len() - 1]);
                }
            }
        }
    }
}

proof fn lemma_shards_between_nonneg(m: Seq<(u64, u64)>, lo: int, hi: int)
    ensures
        shards_between(m, lo, hi) >= 0,
    decreases m.len(),
{
    if m.len() > 0 {
        lemma_shards_between_nonneg(m.drop_last(), lo, hi);
    }
}

/// Computes `entries_from(m, lo)`.
fn entries_from_of(m: &Vec<(u64, u64)>, lo: i64) -> (r: Vec<(u64, u64)>)
    ensures
        r@ == entries_from(m@, lo as int),
{
    let len = m.len();
    let mut kept: Vec<(u64, u64)> = Vec::new();
    let mut i: usize = 0;
    while i < len
        invariant
            i <= len,
            len == m@.len(),
            kept@ == entries_from(m@.subrange(0, i as int), lo as int),
        decreases len - i,
    {
        proof {
            assert(m@.subrange(0, i as int + 1).drop_last() =~= m@.subrange(0, i as int));
        }
        if m[i].0 as i128 >= lo as i128 {
            kept.push(m[i]);
        }
        i = i + 1;
    }
    proof {
        assert(m@.subrange(0, len as int) =~= m@);
    }
    kept
}

/// Tracks the server side of each frame and the traffic counters.
pub struct StatisticsManager {
    history_buffer: Vec<HistoryFrame>,
    max_history_size: usize,
    last_full_report_instant: u64,
    last_frame_present_instant: u64,
    last_frame_present_interval: u64,
    video_packets_total: u64,
    video_packets_partial_sum: u64,
    video_bytes_total: u64,
    video_bytes_partial_sum: u64,
    packets_lost_total: u64,
    packets_lost_partial_sum: u64,
    battery_gauges: Vec<(u64, BatteryData)>,
    head_device_id: u64,
    steamvr_pipeline_latency: u64,
    total_pipeline_latency_average: SlidingWindowAverage,
    last_vsync_time: u64,
    frame_interval: u64,
    last_nominal_bitrate_stats: NominalBitrateStats,
    map_frames_spf: Vec<(u64, u64)>,
    prev_highest_shard: i64,
    prev_highest_frame: i64,
}

impl View for StatisticsManager {
    type V = ServerStatisticsView;

    closed spec fn view(&self) -> ServerStatisticsView {
        ServerStatisticsView {
            history: self.history_buffer@,
            max_history_size: self.max_history_size as nat,
            last_full_report_instant: self.last_full_report_instant,
            last_frame_present_instant: self.last_frame_present_instant,
            last_frame_present_interval: self.last_frame_present_interval,
            video_packets_total: self.video_packets_total,
            video_packets_partial_sum: self.video_packets_partial_sum,
            video_bytes_total: self.video_bytes_total,
            video_bytes_partial_sum: self.video_bytes_partial_sum,
            packets_lost_total: self.packets_lost_total,
            packets_lost_partial_sum: self.packets_lost_partial_sum,
            battery_gauges: self.battery_gauges@,
            head_device_id: self.head_device_id,
            steamvr_pipeline_latency: self.steamvr_pipeline_latency,
            total_pipeline_latency_average: self.total_pipeline_latency_average@,
            last_vsync_time: self.last_vsync_time,
            frame_interval: self.frame_interval,
            last_nominal_bitrate_stats: self.last_nominal_bitrate_stats,
            map_frames_spf: self.map_frames_spf@,
            prev_highest_shard: self.prev_highest_shard,
            prev_highest_frame: self.prev_highest_frame,
        }
    }
}

/// The server tracker's state right after creation at `now`.
pub open spec fn initial_server_state(
    max_history_size: nat,
    nominal_server_frame_interval: u64,
    steamvr_pipeline_latency: u64,
    head_device_id: u64,
    now: u64,
) -> ServerStatisticsView {
    ServerStatisticsView {
        history: Seq::empty(),
        max_history_size,
        last_full_report_instant: now,
        last_frame_present_instant: now,
        last_frame_present_interval: 0,
        video_packets_total: 0,
        video_packets_partial_sum: 0,
        video_bytes_total: 0,
        video_bytes_partial_sum: 0,
        packets_lost_total: 0,
        packets_lost_partial_sum: 0,
        battery_gauges: Seq::empty(),
        head_device_id,
        steamvr_pipeline_latency,
        total_pipeline_latency_average: empty_window(max_history_size, 0),
        last_vsync_time: now,
        frame_interval: nominal_server_frame_interval,
        last_nominal_bitrate_stats: empty_nominal_stats(),
        map_frames_spf: Seq::empty(),
        prev_highest_shard: -1i64,
        prev_highest_frame: -1i64,
    }
}

/// The latency of a pipeline `frames_milli / 1000` frames deep.
pub open spec fn pipeline_latency(frames_milli: u64, frame_interval: u64) -> int {
    clamp_u64(frames_milli * frame_interval / 1000)
}

impl StatisticsManager {
    /// A tracker created at `now`, keeping `max_history_size` frames, for a
    /// nominal frame interval and a runtime pipeline of
    /// `steamvr_pipeline_frames_milli / 1000` frames; battery summaries
    /// follow the device `head_device_id`.
    pub fn new(
        max_history_size: usize,
        nominal_server_frame_interval: u64,
        steamvr_pipeline_frames_milli: u64,
        head_device_id: u64,
        now: u64,
    ) -> (r: Self)
        ensures
            r@.wf(),
            r@ == initial_server_state(
                max_history_size as nat,
                nominal_server_frame_interval,
                pipeline_latency(steamvr_pipeline_frames_milli, nominal_server_frame_interval)
                    as u64,
                head_device_id,
                now,
            ),
    {
        proof {
            lemma_mul_fits_u128(steamvr_pipeline_frames_milli, nominal_server_frame_interval);
        }
        let latency = saturate_u64(
            (steamvr_pipeline_frames_milli as u128) * (nominal_server_frame_interval as u128)
                / 1000,
        );
        let r = StatisticsManager {
            history_buffer: Vec::new(),
            max_history_size,
            last_full_report_instant: now,
            last_frame_present_instant: now,
            last_frame_present_interval: 0,
            video_packets_total: 0,
            video_packets_partial_sum: 0,
            video_bytes_total: 0,
            video_bytes_partial_sum: 0,
            packets_lost_total: 0,
            packets_lost_partial_sum: 0,
            battery_gauges: Vec::new(),
            head_device_id,
            steamvr_pipeline_latency: latency,
            total_pipeline_latency_average: SlidingWindowAverage::new(0, max_history_size),
            last_vsync_time: now,
            frame_interval: nominal_server_frame_interval,
            last_nominal_bitrate_stats: NominalBitrateStats::default(),
            map_frames_spf: Vec::new(),
            prev_highest_shard: -1,
            prev_highest_frame: -1,
        };
        proof {
            assert(r@.history =~= Seq::<HistoryFrame>::empty());
        }
        r
    }

    /// Opens the history entry of a frame whose tracking sample arrived at
    /// `now`; a frame already there keeps its entry.
    pub fn report_tracking_received(&mut self, target_timestamp: u64, now: u64)
        requires
            old(self)@.wf(),
        ensures
            final(self)@.wf(),
            final(self)@ == (ServerStatisticsView {
                history: with_created(
                    old(self)@.history,
                    fresh_frame(target_timestamp, now),
                    old(self)@.max_history_size,
                ),
                ..old(self)@
            }),
    {
        let f = HistoryFrame::new(target_timestamp, now);
        create_entry(&mut self.history_buffer, f, self.max_history_size);
    }

    /// Records that the frame was presented at `now`, shifted back by
    /// `offset`, and the interval since the previous presentation.
    pub fn report_frame_present(&mut self, target_timestamp: u64, offset: u64, now: u64)
        requires
            old(self)@.wf(),
        ensures
            final(self)@.wf(),
            ({
                let v = old(self)@;
                let t = elapsed(now as int, offset as int) as u64;
                if has_key(v.history, target_timestamp) {
                    final(self)@ == (ServerStatisticsView {
                        last_frame_present_interval: elapsed(
                            t as int,
                            v.last_frame_present_instant as int,
                        ) as u64,
                        last_frame_present_instant: t,
                        ..v.with_frame(
                            target_timestamp,
                            HistoryFrame { frame_present: t, ..v.frame(target_timestamp) },
                        )
                    })
                } else {
                    final(self)@ == v
                }
            }),
    {
        if let Some(i) = find_key(&self.history_buffer, target_timestamp) {
            let t = saturating_since(now, offset);
            self.last_frame_present_interval = saturating_since(t, self.last_frame_present_instant);
            self.last_frame_present_instant = t;
            let mut f = self.history_buffer[i];
            f.frame_present = t;
            proof {
                lemma_replace_same_key(self.history_buffer@, self.max_history_size as nat, i as int, f);
            }
            self.history_buffer.set(i, f);
        }
    }

    /// Records that the frame was composed at `now`, shifted back by
    /// `offset`.
    pub fn report_frame_composed(&mut self, target_timestamp: u64, offset: u64, now: u64)
        requires
            old(self)@.wf(),
        ensures
            final(self)@.wf(),
            ({
                let v = old(self)@;
                let t = elapsed(now as int, offset as int) as u64;
                if has_key(v.history, target_timestamp) {
                    final(self)@ == v.with_frame(
                        target_timestamp,
                        HistoryFrame { frame_composed: t, ..v.frame(target_timestamp) },
                    )
                } else {
                    final(self)@ == v
                }
            }),
    {
        if let Some(i) = find_key(&self.history_buffer, target_timestamp) {
            let mut f = self.history_buffer[i];
            f.frame_composed = saturating_since(now, offset);
            proof {
                lemma_replace_same_key(self.history_buffer@, self.max_history_size as nat, i as int, f);
            }
            self.history_buffer.set(i, f);
        }
    }

    /// Counts an encoded frame of `bytes_count` bytes; if the frame is known,
    /// records its encoding at `now` and returns the time since it was
    /// composed, else zero.
    pub fn report_frame_encoded(
        &mut self,
        target_timestamp: u64,
        bytes_count: usize,
        is_idr: bool,
        now: u64,
    ) -> (r: u64)
        requires
            old(self)@.wf(),
        ensures
            final(self)@.wf(),
            ({
                let v = old(self)@;
                let bytes = bytes_count as u64;
                let counted = ServerStatisticsView {
                    video_packets_total: sat_add(v.video_packets_total as int, 1) as u64,
                    video_packets_partial_sum: sat_add(v.video_packets_partial_sum as int, 1) as u64,
                    video_bytes_total: sat_add(v.video_bytes_total as int, bytes as int) as u64,
                    video_bytes_partial_sum: sat_add(v.video_bytes_partial_sum as int, bytes as int)
                        as u64,
                    ..v
                };
                if has_key(v.history, target_timestamp) {
                    let f = v.frame(target_timestamp);
                    &&& final(self)@ == counted.with_frame(
                        target_timestamp,
                        HistoryFrame {
                            frame_encoded: now,
                            video_packet_bytes: bytes,
                            is_idr,
                            ..f
                        },
                    )
                    &&& r == elapsed(now as int, f.frame_composed as int)
                } else {
                    &&& final(self)@ == counted
                    &&& r == 0
                }
            }),
    {
        let bytes = bytes_count as u64;
        self.video_packets_total = self.video_packets_total.saturating_add(1);
        self.video_packets_partial_sum = self.video_packets_partial_sum.saturating_add(1);
        self.video_bytes_total = self.video_bytes_total.saturating_add(bytes);
        self.video_bytes_partial_sum = self.video_bytes_partial_sum.saturating_add(bytes);
        if let Some(i) = find_key(&self.history_buffer, target_timestamp) {
            let mut f = self.history_buffer[i];
            f.frame_encoded = now;
            f.video_packet_bytes = bytes;
            f.is_idr = is_idr;
            proof {
                lemma_replace_same_key(self.history_buffer@, self.max_history_size as nat, i as int, f);
            }
            self.history_buffer.set(i, f);
            saturating_since(now, f.frame_composed)
        } else {
            0
        }
    }

    /// Counts a lost packet.
    pub fn report_packet_loss(&mut self)
        requires
            old(self)@.wf(),
        ensures
            final(self)@.wf(),
            final(self)@ == (ServerStatisticsView {
                packets_lost_total: sat_add(old(self)@.packets_lost_total as int, 1) as u64,
                packets_lost_partial_sum: sat_add(old(self)@.packets_lost_partial_sum as int, 1)
                    as u64,
                ..old(self)@
            }),
    {
        self.packets_lost_total = self.packets_lost_total.saturating_add(1);
        self.packets_lost_partial_sum = self.packets_lost_partial_sum.saturating_add(1);
    }

    /// Records a device's battery state; the last report wins.
    pub fn report_battery(&mut self, device_id: u64, gauge_value_ppm: u32, is_plugged: bool)
        requires
            old(self)@.wf(),
        ensures
            final(self)@.wf(),
            final(self)@ == (ServerStatisticsView {
                battery_gauges: upserted(
                    old(self)@.battery_gauges,
                    device_id,
                    BatteryData { gauge_value_ppm, is_plugged },
                ),
                ..old(self)@
            }),
    {
        proof {
            lemma_upserted_unique(
                self.battery_gauges@,
                device_id,
                BatteryData { gauge_value_ppm, is_plugged },
            );
        }
        upsert(&mut self.battery_gauges, device_id, BatteryData { gauge_value_ppm, is_plugged });
    }

    /// Keeps the last bitrate decision for the graph records.
    pub fn report_nominal_bitrate_stats(&mut self, stats: NominalBitrateStats)
        requires
            old(self)@.wf(),
        ensures
            final(self)@.wf(),
            final(self)@ == (ServerStatisticsView {
                last_nominal_bitrate_stats: stats,
                ..old(self)@
            }),
    {
        self.last_nominal_bitrate_stats = stats;
    }

    /// Records the sequence index that a frame was sent under, and its number
    /// of shards.
    pub fn report_frame_sent(&mut self, target_timestamp: u64, frame_sent_id: u32, spf: usize)
        requires
            old(self)@.wf(),
        ensures
            final(self)@.wf(),
            ({
                let v = old(self)@;
                let counted = ServerStatisticsView {
                    map_frames_spf: upserted(v.map_frames_spf, frame_sent_id as u64, spf as u64),
                    ..v
                };
                if has_key(v.history, target_timestamp) {
                    final(self)@ == counted.with_frame(
                        target_timestamp,
                        HistoryFrame { frame_index: frame_sent_id, ..v.frame(target_timestamp) },
                    )
                } else {
                    final(self)@ == counted
                }
            }),
    {
        if let Some(i) = find_key(&self.history_buffer, target_timestamp) {
            let mut f = self.history_buffer[i];
            f.frame_index = frame_sent_id;
            proof {
                lemma_replace_same_key(self.history_buffer@, self.max_history_size as nat, i as int, f);
            }
            self.history_buffer.set(i, f);
        }
        proof {
            lemma_upserted_unique(self.map_frames_spf@, frame_sent_id as u64, spf as u64);
        }
        upsert(&mut self.map_frames_spf, frame_sent_id as u64, spf as u64);
    }

    /// The mean total pipeline latency.
    pub fn video_pipeline_latency_average(&self) -> (r: u64)
        requires
            self@.wf(),
        ensures
            r == self@.total_pipeline_latency_average.average(),
    {
        self.total_pipeline_latency_average.get_average()
    }

    /// How far ahead of the runtime's pipeline latency the measured mean
    /// falls short, floored at zero.
    pub fn tracker_pose_time_offset(&self) -> (r: u64)
        requires
            self@.wf(),
        ensures
            r == elapsed(
                self@.steamvr_pipeline_latency as int,
                self@.total_pipeline_latency_average.average(),
            ),
    {
        saturating_since(self.steamvr_pipeline_latency, self.total_pipeline_latency_average.get_average())
    }

    /// Moves the vsync marker up to `now` by whole frame intervals, and
    /// returns the time left until the next vsync. It does not wait.
    pub fn duration_until_next_vsync(&mut self, now: u64) -> (r: u64)
        requires
            old(self)@.wf(),
        ensures
            final(self)@.wf(),
            ({
                let v = old(self)@;
                let l = vsync_advanced(v.last_vsync_time, v.frame_interval, now);
                &&& final(self)@ == (ServerStatisticsView { last_vsync_time: l as u64, ..v })
                &&& r == until_vsync(l, v.frame_interval, now)
            }),
    {
        let interval = self.frame_interval;
        let last = self.last_vsync_time;
        if interval > 0 && now > interval && last < now - interval {
            proof {
                lemma_vsync_advanced(last, interval, now);
            }
            let d = now - last;
            let k = (d - 1) / interval;
            proof {
                assert(k * interval <= d - 1) by (nonlinear_arith)
                    requires
                        k == (d - 1) as int / interval as int,
                        interval > 0,
                        d >= 1,
                ;
            }
            self.last_vsync_time = last + k * interval;
        }
        let l = self.last_vsync_time;
        if now <= l {
            (l - now).saturating_add(interval)
        } else {
            interval.saturating_sub(now - l)
        }
    }

    /// Advances the shard accounting to the position that `c` acknowledges
    /// and returns the shards lost on the way.
    fn update_shard_loss(&mut self, c: &ClientStatistics) -> (r: u64)
        requires
            old(self)@.wf(),
        ensures
            final(self)@.wf(),
            (final(self)@, r) == shard_loss_step(old(self)@, *c),
    {
        let frame = c.highest_rx_frame_index as i64;
        let shard = c.highest_rx_shard_index as i64;
        let rx = c.rx_shard_counter as u64;
        if self.prev_highest_frame == frame {
            if self.prev_highest_shard < shard {
                let sent = (shard - self.prev_highest_shard) as u64;
                self.prev_highest_shard = shard;
                sent.saturating_sub(rx)
            } else {
                0
            }
        } else if self.prev_highest_frame < frame {
            let mut from_prev: u64 = 0;
            if self.prev_highest_frame >= 0 {
                if let Some(i) = find_entry(&self.map_frames_spf, self.prev_highest_frame as u64) {
                    from_prev = self.map_frames_spf[i].1.saturating_sub(
                        (self.prev_highest_shard + 1) as u64,
                    );
                }
            }
            let between = shards_between_of(&self.map_frames_spf, self.prev_highest_frame, frame);
            proof {
                assert(shards_between(self.map_frames_spf@, self.prev_highest_frame as int, frame as int) >= 0) by {
                    lemma_shards_between_nonneg(self.map_frames_spf@, self.prev_highest_frame as int, frame as int);
                }
            }
            let sent = from_prev.saturating_add(between).saturating_add((shard + 1) as u64);
            self.prev_highest_frame = frame;
            self.prev_highest_shard = shard;
            proof {
                lemma_entries_from_unique(self.map_frames_spf@, frame as int);
            }
            self.map_frames_spf = entries_from_of(&self.map_frames_spf, frame);
            sent.saturating_sub(rx)
        } else {
            0
        }
    }

    /// The summary record for the period ending now.
    fn summary_of(
        &self,
        c: &ClientStatistics,
        network: u64,
        encoder: u64,
        client_fps: u64,
        server_fps: u64,
    ) -> (r: StatisticsSummary)
        ensures
            r == summary_record(self@, *c, network, encoder, client_fps, server_fps),
    {
        let battery = match find_entry(&self.battery_gauges, self.head_device_id) {
            Some(i) => self.battery_gauges[i].1,
            None => BatteryData { gauge_value_ppm: 0, is_plugged: false },
        };
        StatisticsSummary {
            video_packets_total: self.video_packets_total,
            video_packets_per_sec: rate_per_second(
                self.video_packets_partial_sum,
                FULL_REPORT_INTERVAL_NS,
            ),
            video_mbytes_total: self.video_bytes_total / 1_000_000,
            video_bits_per_sec: rate_per_second(
                bits_in(self.video_bytes_partial_sum),
                FULL_REPORT_INTERVAL_NS,
            ),
            total_latency_ns: c.total_pipeline_latency,
            network_latency_ns: network,
            encode_latency_ns: encoder,
            decode_latency_ns: c.video_decode,
            packets_lost_total: self.packets_lost_total,
            packets_lost_per_sec: rate_per_second(
                self.packets_lost_partial_sum,
                FULL_REPORT_INTERVAL_NS,
            ),
            client_fps_millihz: client_fps,
            server_fps_millihz: server_fps,
            battery_hmd_percent: (battery.gauge_value_ppm / 10_000) as u64,
            hmd_plugged: battery.is_plugged,
        }
    }

    /// The graph record of frame `f`.
    fn graph_of(
        &self,
        f: &HistoryFrame,
        c: &ClientStatistics,
        client_fps: u64,
        server_fps: u64,
        shard_loss: u64,
    ) -> (r: GraphStatistics)
        ensures
            r == graph_record(self@, *f, *c, client_fps, server_fps, shard_loss),
    {
        let (game, compositor, encoder, network) = breakdown_of(f, c);
        GraphStatistics {
            total_pipeline_latency_ns: c.total_pipeline_latency,
            game_time_ns: game,
            server_compositor_ns: compositor,
            encoder_ns: encoder,
            network_ns: network,
            decoder_ns: c.video_decode,
            decoder_queue_ns: c.video_decoder_queue,
            client_compositor_ns: c.rendering,
            vsync_queue_ns: c.vsync_queue,
            client_fps_millihz: client_fps,
            server_fps_millihz: server_fps,
            nominal_bitrate: self.last_nominal_bitrate_stats,
            actual_bitrate_bps: rate_per_second(bits_in(f.video_packet_bytes), network),
            jitter_avg_frame_ns: c.jitter_avg_frame,
            frame_span_ns: c.frame_span,
            frame_interarrival_ns: c.frame_interarrival,
            rx_bytes: c.rx_bytes,
            network_throughput_bps: rate_per_second(bits_in(c.rx_bytes), c.frame_interarrival),
            peak_network_throughput_bps: rate_per_second(bits_in(c.bytes_in_frame), c.frame_span),
            application_throughput_bps: rate_per_second(
                bits_in(c.bytes_in_frame_app),
                c.frame_interarrival,
            ),
            filtered_ow_delay_ns: c.filtered_ow_delay,
            rx_shard_counter: c.rx_shard_counter,
            duplicated_shard_counter: c.duplicated_shard_counter,
            frames_skipped: c.frames_skipped,
            frames_dropped: c.frames_dropped,
            frame_loss: c.frames_skipped as u64 + c.frames_dropped as u64,
            shard_loss_server: shard_loss,
            frame_index: f.frame_index,
            is_idr: f.is_idr,
            target_timestamp: c.target_timestamp,
        }
    }

    /// Reconciles the client's finalized record of a frame, received at
    /// `now`, with the server's: derives the latency breakdown, the summary
    /// record when its period has passed, shard loss, and the graph record.
    /// A frame no longer in the history yields zeros and no records.
    pub fn report_statistics(&mut self, client_stats: ClientStatistics, now: u64) -> (r:
        StatisticsReport)
        requires
            old(self)@.wf(),
        ensures
            final(self)@.wf(),
            (final(self)@, r) == statistics_step(old(self)@, client_stats, now),
    {
        let ts = client_stats.target_timestamp;
        let found = find_key(&self.history_buffer, ts);
        match found {
            None => StatisticsReport {
                network_latency: 0,
                game_time_latency: 0,
                summary: None,
                graph: None,
            },
            Some(i) => {
                let ghost v = self@;
                let mut f = self.history_buffer[i];
                f.total_pipeline_latency = client_stats.total_pipeline_latency;
                let (game, compositor, encoder, network) = breakdown_of(&f, &client_stats);
                let client_fps = frequency_millihertz(
                    client_stats.frame_interval,
                    MIN_FPS_INTERVAL_NS,
                );
                let server_fps = frequency_millihertz(
                    self.last_frame_present_interval,
                    MIN_FPS_INTERVAL_NS,
                );
                let due = self.last_full_report_instant < now && now
                    - self.last_full_report_instant > FULL_REPORT_INTERVAL_NS;
                let summary = if due {
                    Some(self.summary_of(&client_stats, network, encoder, client_fps, server_fps))
                } else {
                    None
                };
                let graph_base = self.graph_of(&f, &client_stats, client_fps, server_fps, 0);
                proof {
                    lemma_replace_same_key(
                        self.history_buffer@,
                        self.max_history_size as nat,
                        i as int,
                        f,
                    );
                }
                self.history_buffer.set(i, f);
                if due {
                    self.last_full_report_instant = self.last_full_report_instant
                        + FULL_REPORT_INTERVAL_NS;
                    self.video_packets_partial_sum = 0;
                    self.video_bytes_partial_sum = 0;
                    self.packets_lost_partial_sum = 0;
                }
                let shard_loss = self.update_shard_loss(&client_stats);
                let graph = GraphStatistics { shard_loss_server: shard_loss, ..graph_base };
                StatisticsReport {
                    network_latency: network,
                    game_time_latency: game,
                    summary,
                    graph: Some(graph),
                }
            },
        }
    }
}

} // verus!
