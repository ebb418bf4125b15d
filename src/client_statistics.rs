//! The client side of the per-frame accounting: durations of the stages
//! after the network, the total pipeline latency, and the queue of finalized
//! records waiting to be sent.
use vstd::prelude::*;

use crate::history::{
    create_entry, find_key, has_key, history_wf, is_first_key, key_index, lemma_replace_same_key,
    with_created, Keyed,
};
use crate::packets::{blank_client_statistics, merged_stats, ClientStatistics, VideoStatsRx};
use crate::server_statistics::{pipeline_latency, sat_add};
use crate::time::{elapsed, lemma_mul_fits_u128, saturate_u64, saturating_since};
use crate::window::{empty_window, SlidingWindowAverage, WindowState};

verus! {

/// Stage instants and measurements of one frame on the client.
#[derive(Clone, Copy, Debug, PartialEq, Eq, Structural)]
pub struct HistoryFrame {
    pub input_acquired: u64,
    pub video_packet_received: u64,
    pub client_stats: ClientStatistics,
}

impl Keyed for HistoryFrame {
    open spec fn key_of(&self) -> u64 {
        self.client_stats.target_timestamp
    }

    fn key(&self) -> (r: u64) {
        self.client_stats.target_timestamp
    }
}

/// A frame whose input was sampled at `now`.
pub open spec fn fresh_frame(target_timestamp: u64, now: u64) -> HistoryFrame {
    HistoryFrame {
        input_acquired: now,
        video_packet_received: now,
        client_stats: blank_client_statistics(target_timestamp),
    }
}

/// What a client `StatisticsManager` holds.
pub struct ClientStatisticsView {
    pub history: Seq<HistoryFrame>,
    pub max_history_size: nat,
    pub prev_vsync: u64,
    pub total_pipeline_latency_average: WindowState,
    pub steamvr_pipeline_latency: u64,
    /// Finalized records not yet taken, oldest first.
    pub stats_history: Seq<HistoryFrame>,
}

impl ClientStatisticsView {
    pub open spec fn wf(self) -> bool {
        &&& history_wf(self.history, self.max_history_size)
        &&& self.total_pipeline_latency_average.wf()
    }

    /// The frame with key `ts`, with `f` in its place.
    pub open spec fn with_frame(self, ts: u64, f: HistoryFrame) -> ClientStatisticsView {
        ClientStatisticsView { history: self.history.update(key_index(self.history, ts), f), ..self }
    }

    /// The frame with key `ts`.
    pub open spec fn frame(self, ts: u64) -> HistoryFrame {
        self.history[key_index(self.history, ts)]
    }
}

/// The queue of finalized records after the one for `ts` is taken, and the
/// record taken, if any.
pub open spec fn summary_step(q: Seq<HistoryFrame>, ts: u64) -> (
    Seq<HistoryFrame>,
    Option<ClientStatistics>,
) {
    if has_key(q, ts) {
        let i = key_index(q, ts);
        (q.remove(i), Some(q[i].client_stats))
    } else {
        (q, None)
    }
}

/// A finalized record is handed out at most once: with a single record of
/// `ts` queued, the first request for it returns it and a second finds
/// nothing.
pub proof fn lemma_summary_taken_once(q: Seq<HistoryFrame>, ts: u64)
    requires
        forall|i: int, j: int|
            0 <= i < q.len() && 0 <= j < q.len() && q[i].key_of() == ts && q[j].key_of() == ts
                ==> i == j,
    ensures
        has_key(q, ts) ==> summary_step(q, ts).1 == Some(q[key_index(q, ts)].client_stats),
        summary_step(summary_step(q, ts).0, ts).1 is None,
{
    if has_key(q, ts) {
        let i = key_index(q, ts);
        let w = choose|w: int| 0 <= w < q.len() && q[w].key_of() == ts;
        assert(is_first_key(q, ts, i)) by {
            assert(exists|k: int| is_first_key(q, ts, k)) by {
                assert(is_first_key(q, ts, w)) by {
                    assert forall|j: int| 0 <= j < w implies q[j].key_of() != ts by {
                        if q[j].key_of() == ts {
                            assert(j == w);
                        }
                    }
                }
            }
        }
        let r = q.remove(i);
        assert forall|k: int| 0 <= k < r.len() implies r[k].key_of() != ts by {
            if k < i {
                assert(r[k] == q[k]);
            } else {
                assert(r[k] == q[k + 1]);
            }
        }
    }
}

/// The total pipeline latency of a submitted frame is never below the
/// runtime's vsync-queue time, and is the measured time plus that queue
/// time whenever the sum fits; the render time is never negative.
pub proof fn lemma_submit_latencies(
    now: u64,
    input_acquired: u64,
    received_and_stages: int,
    vsync_queue: u64,
)
    ensures
        sat_add(elapsed(now as int, input_acquired as int), vsync_queue as int)
            >= vsync_queue,
        elapsed(now as int, input_acquired as int) + vsync_queue <= u64::MAX ==> sat_add(
            elapsed(now as int, input_acquired as int),
            vsync_queue as int,
        ) == elapsed(now as int, input_acquired as int) + vsync_queue,
        elapsed(now as int, received_and_stages) >= 0,
{
}

/// Tracks the client side of each frame.
pub struct StatisticsManager {
    history_buffer: Vec<HistoryFrame>,
    max_history_size: usize,
    prev_vsync: u64,
    total_pipeline_latency_average: SlidingWindowAverage,
    steamvr_pipeline_latency: u64,
    stats_history_buffer: Vec<HistoryFrame>,
}

impl View for StatisticsManager {
    type V = ClientStatisticsView;

    closed spec fn view(&self) -> ClientStatisticsView {
        ClientStatisticsView {
            history: self.history_buffer@,
            max_history_size: self.max_history_size as nat,
            prev_vsync: self.prev_vsync,
            total_pipeline_latency_average: self.total_pipeline_latency_average@,
            steamvr_pipeline_latency: self.steamvr_pipeline_latency,
            stats_history: self.stats_history_buffer@,
        }
    }
}

impl StatisticsManager {
    /// A tracker created at `now`, keeping `max_history_size` frames, for a
    /// runtime pipeline of `steamvr_pipeline_frames_milli / 1000` frames of
    /// the nominal server frame interval.
    pub fn new(
        max_history_size: usize,
        nominal_server_frame_interval: u64,
        steamvr_pipeline_frames_milli: u64,
        now: u64,
    ) -> (r: Self)
        ensures
            r@.wf(),
            r@ == (ClientStatisticsView {
                history: Seq::empty(),
                max_history_size: max_history_size as nat,
                prev_vsync: now,
                total_pipeline_latency_average: empty_window(max_history_size as nat, 0),
                steamvr_pipeline_latency: pipeline_latency(
                    steamvr_pipeline_frames_milli,
                    nominal_server_frame_interval,
                ) as u64,
                stats_history: Seq::empty(),
            }),
    {
        proof {
            lemma_mul_fits_u128(steamvr_pipeline_frames_milli, nominal_server_frame_interval);
        }
        let latency = saturate_u64(
            (steamvr_pipeline_frames_milli as u128) * (nominal_server_frame_interval as u128)
                / 1000,
        );
        let r = StatisticsManager {
            history_buffer: Vec::new(),
            max_history_size,
            prev_vsync: now,
            total_pipeline_latency_average: SlidingWindowAverage::new(0, max_history_size),
            steamvr_pipeline_latency: latency,
            stats_history_buffer: Vec::new(),
        };
        proof {
            assert(r@.history =~= Seq::<HistoryFrame>::empty());
            assert(r@.stats_history =~= Seq::<HistoryFrame>::empty());
        }
        r
    }

    /// Opens the history entry of a frame whose input was sampled at `now`;
    /// a frame already there keeps its entry.
    pub fn report_input_acquired(&mut self, target_timestamp: u64, now: u64)
        requires
            old(self)@.wf(),
        ensures
            final(self)@.wf(),
            final(self)@ == (ClientStatisticsView {
                history: with_created(
                    old(self)@.history,
                    fresh_frame(target_timestamp, now),
                    old(self)@.max_history_size,
                ),
                ..old(self)@
            }),
    {
        let f = HistoryFrame {
            input_acquired: now,
            video_packet_received: now,
            client_stats: ClientStatistics::blank(target_timestamp),
        };
        create_entry(&mut self.history_buffer, f, self.max_history_size);
    }

    /// Puts `f` in place of the known frame at position `i`.
    fn replace_frame(&mut self, i: usize, f: HistoryFrame)
        requires
            old(self)@.wf(),
            i < old(self)@.history.len(),
            old(self)@.history[i as int].key_of() == f.key_of(),
        ensures
            final(self)@.wf(),
            final(self)@ == (ClientStatisticsView {
                history: old(self)@.history.update(i as int, f),
                ..old(self)@
            }),
    {
        proof {
            lemma_replace_same_key(self.history_buffer@, self.max_history_size as nat, i as int, f);
        }
        self.history_buffer.set(i, f);
    }

    /// Records that the first video data of the frame arrived at `now`.
    pub fn report_video_packet_received(&mut self, target_timestamp: u64, now: u64)
        requires
            old(self)@.wf(),
        ensures
            final(self)@.wf(),
            ({
                let v = old(self)@;
                if has_key(v.history, target_timestamp) {
                    final(self)@ == v.with_frame(
                        target_timestamp,
                        HistoryFrame { video_packet_received: now, ..v.frame(target_timestamp) },
                    )
                } else {
                    final(self)@ == v
                }
            }),
    {
        if let Some(i) = find_key(&self.history_buffer, target_timestamp) {
            let mut f = self.history_buffer[i];
            f.video_packet_received = now;
            self.replace_frame(i, f);
        }
    }

    /// Merges the transport's counters into the frame's record and queues a
    /// copy of the record as finalized.
    pub fn report_video_statistics(&mut self, target_timestamp: u64, video_stats: VideoStatsRx)
        requires
            old(self)@.wf(),
        ensures
            final(self)@.wf(),
            ({
                let v = old(self)@;
                if has_key(v.history, target_timestamp) {
                    let f0 = v.frame(target_timestamp);
                    let f = HistoryFrame {
                        client_stats: merged_stats(f0.client_stats, video_stats),
                        ..f0
                    };
                    final(self)@ == (ClientStatisticsView {
                        stats_history: v.stats_history.push(f),
                        ..v.with_frame(target_timestamp, f)
                    })
                } else {
                    final(self)@ == v
                }
            }),
    {
        if let Some(i) = find_key(&self.history_buffer, target_timestamp) {
            let mut f = self.history_buffer[i];
            f.client_stats.jitter_avg_frame = video_stats.jitter_avg_frame;
            f.client_stats.frame_span = video_stats.frame_span;
            f.client_stats.frame_interarrival = video_stats.frame_interarrival;
            f.client_stats.rx_bytes = video_stats.rx_bytes;
            f.client_stats.bytes_in_frame = video_stats.bytes_in_frame;
            f.client_stats.bytes_in_frame_app = video_stats.bytes_in_frame_app;
            f.client_stats.filtered_ow_delay = video_stats.filtered_ow_delay;
            f.client_stats.rx_shard_counter = video_stats.rx_shard_counter;
            f.client_stats.duplicated_shard_counter = video_stats.duplicated_shard_counter;
            f.client_stats.highest_rx_frame_index = video_stats.highest_rx_frame_index;
            f.client_stats.highest_rx_shard_index = video_stats.highest_rx_shard_index;
            f.client_stats.frames_skipped = video_stats.frames_skipped;
            f.client_stats.frames_dropped = video_stats.frames_dropped;
            self.replace_frame(i, f);
            self.stats_history_buffer.push(f);
        }
    }

    /// Records the decode time: from the arrival of the video data to `now`,
    /// floored at zero.
    pub fn report_frame_decoded(&mut self, target_timestamp: u64, now: u64)
        requires
            old(self)@.wf(),
        ensures
            final(self)@.wf(),
            ({
                let v = old(self)@;
                if has_key(v.history, target_timestamp) {
                    let f0 = v.frame(target_timestamp);
                    final(self)@ == v.with_frame(
                        target_timestamp,
                        HistoryFrame {
                            client_stats: ClientStatistics {
                                video_decode: elapsed(
                                    now as int,
                                    f0.video_packet_received as int,
                                ) as u64,
                                ..f0.client_stats
                            },
                            ..f0
                        },
                    )
                } else {
                    final(self)@ == v
                }
            }),
    {
        if let Some(i) = find_key(&self.history_buffer, target_timestamp) {
            let mut f = self.history_buffer[i];
            f.client_stats.video_decode = saturating_since(now, f.video_packet_received);
            self.replace_frame(i, f);
        }
    }

    /// Records the decoder-queue time: from the end of decoding to `now`,
    /// floored at zero.
    pub fn report_compositor_start(&mut self, target_timestamp: u64, now: u64)
        requires
            old(self)@.wf(),
        ensures
            final(self)@.wf(),
            ({
                let v = old(self)@;
                if has_key(v.history, target_timestamp) {
                    let f0 = v.frame(target_timestamp);
                    final(self)@ == v.with_frame(
                        target_timestamp,
                        HistoryFrame {
                            client_stats: ClientStatistics {
                                video_decoder_queue: elapsed(
                                    now as int,
                                    f0.video_packet_received + f0.client_stats.video_decode,
                                ) as u64,
                                ..f0.client_stats
                            },
                            ..f0
                        },
                    )
                } else {
                    final(self)@ == v
                }
            }),
    {
        if let Some(i) = find_key(&self.history_buffer, target_timestamp) {
            let mut f = self.history_buffer[i];
            f.client_stats.video_decoder_queue = saturating_since(
                saturating_since(now, f.video_packet_received),
                f.client_stats.video_decode,
            );
            self.replace_frame(i, f);
        }
    }

    /// Records the render time and, with the runtime's `vsync_queue` (the
    /// time from this call to the vsync), the total pipeline latency, which
    /// feeds the latency mean; the frame interval is the gap between this
    /// vsync and the previous one.
    pub fn report_submit(&mut self, target_timestamp: u64, vsync_queue: u64, now: u64)
        requires
            old(self)@.wf(),
        ensures
            final(self)@.wf(),
            ({
                let v = old(self)@;
                if has_key(v.history, target_timestamp) {
                    let f0 = v.frame(target_timestamp);
                    let s = f0.client_stats;
                    let total = sat_add(elapsed(now as int, f0.input_acquired as int), vsync_queue as int);
                    let vsync = sat_add(now as int, vsync_queue as int);
                    let f = HistoryFrame {
                        client_stats: ClientStatistics {
                            rendering: elapsed(
                                now as int,
                                f0.video_packet_received + s.video_decode + s.video_decoder_queue,
                            ) as u64,
                            vsync_queue,
                            total_pipeline_latency: total as u64,
                            frame_interval: elapsed(vsync, v.prev_vsync as int) as u64,
                            ..s
                        },
                        ..f0
                    };
                    final(self)@ == (ClientStatisticsView {
                        total_pipeline_latency_average: v.total_pipeline_latency_average.submit(
                            total as u64,
                        ),
                        prev_vsync: vsync as u64,
                        ..v.with_frame(target_timestamp, f)
                    })
                } else {
                    final(self)@ == v
                }
            }),
    {
        if let Some(i) = find_key(&self.history_buffer, target_timestamp) {
            let mut f = self.history_buffer[i];
            f.client_stats.rendering = saturating_since(
                saturating_since(
                    saturating_since(now, f.video_packet_received),
                    f.client_stats.video_decode,
                ),
                f.client_stats.video_decoder_queue,
            );
            f.client_stats.vsync_queue = vsync_queue;
            let total = saturating_since(now, f.input_acquired).saturating_add(vsync_queue);
            f.client_stats.total_pipeline_latency = total;
            self.total_pipeline_latency_average.submit_sample(total);
            let vsync = now.saturating_add(vsync_queue);
            f.client_stats.frame_interval = saturating_since(vsync, self.prev_vsync);
            self.prev_vsync = vsync;
            self.replace_frame(i, f);
        }
    }

    /// Takes the finalized record of `target_timestamp` out of the queue, if
    /// one is there.
    pub fn summary(&mut self, target_timestamp: u64) -> (r: Option<ClientStatistics>)
        requires
            old(self)@.wf(),
        ensures
            final(self)@.wf(),
            ({
                let (q, taken) = summary_step(old(self)@.stats_history, target_timestamp);
                &&& r == taken
                &&& final(self)@ == (ClientStatisticsView { stats_history: q, ..old(self)@ })
            }),
    {
        match find_key(&self.stats_history_buffer, target_timestamp) {
            Some(i) => {
                let f = self.stats_history_buffer.remove(i);
                Some(f.client_stats)
            },
            None => None,
        }
    }

    /// Number of frames in the history.
    pub fn history_len(&self) -> (r: usize)
        ensures
            r == self@.history.len(),
    {
        self.history_buffer.len()
    }

    /// The mean total pipeline latency, used to predict the head pose.
    pub fn average_total_pipeline_latency(&self) -> (r: u64)
        requires
            self@.wf(),
        ensures
            r == self@.total_pipeline_latency_average.average(),
    {
        self.total_pipeline_latency_average.get_average()
    }

    /// The mean total pipeline latency less the runtime's own pipeline
    /// latency, floored at zero: the lead time for controller poses.
    pub fn tracker_prediction_offset(&self) -> (r: u64)
        requires
            self@.wf(),
        ensures
            r == elapsed(
                self@.total_pipeline_latency_average.average(),
                self@.steamvr_pipeline_latency as int,
            ),
    {
        saturating_since(self.total_pipeline_latency_average.get_average(), self.steamvr_pipeline_latency)
    }
}

} // verus!
