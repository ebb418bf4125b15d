//! The bitrate controller: learns frame interval, latencies and throughput
//! from reports, and on request chooses the encoder's bitrate and framerate.
use vstd::prelude::*;

use crate::config::{
    BitrateAdaptiveFramerateConfig, BitrateConfig, BitrateMode, DecoderLatencyLimiter,
    EncoderLatencyLimiter,
};
use crate::records::{
    empty_nominal_stats, zero_heuristic_stats, EncoderUpdate, HeuristicStats, NominalBitrateStats,
};
use crate::time::{
    clamp_u64, elapsed, lemma_scale_ppm_bounds, frequency_millihertz, lemma_mul_fits_u128, millihertz, millis_to_nanos, per_second,
    rate_per_second, saturate_u64, saturating_since, scale_by_ppm, scale_ppm, NANOS_PER_MILLI,
    NANOS_PER_SEC, PPM,
};
use crate::table::{entry_index, find_entry, has_entry};
use crate::window::{empty_window, lemma_average_bounds, SlidingWindowAverage, WindowState};

verus! {

/// Least time between two recomputations, unless the mode sets its own.
pub const UPDATE_INTERVAL_NS: u64 = 1_000_000_000;

/// Frame-interval samples kept when the framerate regime changes.
pub const FRAMERATE_RESET_KEPT_SAMPLES: usize = 5;

/// Seed of the frame-interval mean: 16 ms.
pub const INITIAL_FRAME_INTERVAL_NS: u64 = 16_000_000;

/// Seed of the encoder, network and round-trip latency means: 5 ms.
pub const INITIAL_LATENCY_NS: u64 = 5_000_000;

/// Seed of the peak-throughput mean: 300 Mbps.
pub const INITIAL_PEAK_THROUGHPUT_BPS: u64 = 300_000_000;

/// What a `BitrateManager` holds.
pub struct BitrateManagerView {
    pub nominal_frame_interval: u64,
    pub frame_interval_average: WindowState,
    /// Encoded frames not yet matched to a network report: timestamp and
    /// size in bits, oldest first.
    pub packet_sizes_bits_history: Seq<(u64, u64)>,
    pub encoder_latency_average: WindowState,
    pub network_latency_average: WindowState,
    pub bitrate_average: WindowState,
    pub decoder_latency_overstep_count: u64,
    pub last_frame_instant: u64,
    pub last_update_instant: u64,
    pub dynamic_max_bitrate: u64,
    pub previous_config: Option<BitrateConfig>,
    pub update_needed: bool,
    pub last_target_bitrate: u64,
    pub frame_interarrival_average: WindowState,
    pub rtt_average: WindowState,
    pub update_interval_setting: u64,
    pub heur_stats: HeuristicStats,
    pub peak_throughput_average: WindowState,
}

impl BitrateManagerView {
    pub open spec fn wf(self) -> bool {
        &&& self.frame_interval_average.wf()
        &&& self.encoder_latency_average.wf()
        &&& self.network_latency_average.wf()
        &&& self.bitrate_average.wf()
        &&& self.frame_interarrival_average.wf()
        &&& self.rtt_average.wf()
        &&& self.peak_throughput_average.wf()
    }
}

pub open spec fn min_int(a: int, b: int) -> int {
    if a <= b {
        a
    } else {
        b
    }
}

pub open spec fn max_int(a: int, b: int) -> int {
    if a >= b {
        a
    } else {
        b
    }
}

/// The controller's state right after creation at `now`.
pub open spec fn initial_bitrate_state(
    max_history_size: nat,
    nominal_frame_interval: u64,
    initial_bitrate_bps: u64,
    now: u64,
) -> BitrateManagerView {
    BitrateManagerView {
        nominal_frame_interval,
        frame_interval_average: empty_window(max_history_size, INITIAL_FRAME_INTERVAL_NS),
        packet_sizes_bits_history: Seq::empty(),
        encoder_latency_average: empty_window(max_history_size, INITIAL_LATENCY_NS),
        network_latency_average: empty_window(max_history_size, INITIAL_LATENCY_NS),
        bitrate_average: empty_window(max_history_size, initial_bitrate_bps),
        decoder_latency_overstep_count: 0,
        last_frame_instant: now,
        last_update_instant: now,
        dynamic_max_bitrate: u64::MAX,
        previous_config: None,
        update_needed: true,
        last_target_bitrate: initial_bitrate_bps,
        frame_interarrival_average: empty_window(max_history_size, nominal_frame_interval),
        rtt_average: empty_window(max_history_size, INITIAL_LATENCY_NS),
        update_interval_setting: UPDATE_INTERVAL_NS,
        heur_stats: zero_heuristic_stats(),
        peak_throughput_average: empty_window(max_history_size, INITIAL_PEAK_THROUGHPUT_BPS),
    }
}

/// Whether a frame interval lies outside the band `[mean / m, mean * m]`,
/// with `m` in parts per million.
pub open spec fn regime_changed(interval: int, mean: int, multiplier_ppm: int) -> bool {
    interval * (PPM as int) > multiplier_ppm * mean || interval * multiplier_ppm < mean
        * (PPM as int)
}

/// The state after a frame is presented at `now`.
pub open spec fn frame_present_step(
    v: BitrateManagerView,
    config: Option<BitrateAdaptiveFramerateConfig>,
    now: u64,
) -> BitrateManagerView {
    let interval = elapsed(now as int, v.last_frame_instant as int);
    let window = v.frame_interval_average.submit(interval as u64);
    let reset = match config {
        Some(c) => regime_changed(
            interval,
            window.average(),
            c.framerate_reset_threshold_multiplier_ppm as int,
        ),
        None => false,
    };
    BitrateManagerView {
        last_frame_instant: now,
        frame_interval_average: if reset {
            window.retain(FRAMERATE_RESET_KEPT_SAMPLES as nat)
        } else {
            window
        },
        update_needed: reset || v.update_needed,
        ..v
    }
}

/// The state after a frame of `size_bytes` is encoded in `encoder_latency`.
pub open spec fn frame_encoded_step(
    v: BitrateManagerView,
    timestamp: u64,
    encoder_latency: u64,
    size_bytes: usize,
) -> BitrateManagerView {
    BitrateManagerView {
        encoder_latency_average: v.encoder_latency_average.submit(encoder_latency),
        packet_sizes_bits_history: v.packet_sizes_bits_history.push(
            (timestamp, clamp_u64(size_bytes as int * 8) as u64),
        ),
        ..v
    }
}

/// The state after a network report.
pub open spec fn network_stats_step(
    v: BitrateManagerView,
    network_rtt: u64,
    peak_throughput_bps: u64,
    frame_interarrival: u64,
) -> BitrateManagerView {
    BitrateManagerView {
        rtt_average: v.rtt_average.submit(network_rtt),
        peak_throughput_average: v.peak_throughput_average.submit(peak_throughput_bps),
        frame_interarrival_average: v.frame_interarrival_average.submit(frame_interarrival),
        ..v
    }
}

/// The state after the network latency of a frame is learnt: the queued
/// sizes are drained up to and including that frame, whose size over the
/// latency is a bitrate sample; then the decoder-latency limiter runs.
pub open spec fn frame_latencies_step(
    v: BitrateManagerView,
    mode: BitrateMode,
    timestamp: u64,
    network_latency: u64,
    decoder_latency: u64,
) -> BitrateManagerView {
    if network_latency == 0 {
        v
    } else {
        let h = v.packet_sizes_bits_history;
        let matched = has_entry(h, timestamp);
        let i = entry_index(h, timestamp);
        let bitrate_average = if matched {
            v.bitrate_average.submit(per_second(h[i].1 as int, network_latency as int) as u64)
        } else {
            v.bitrate_average
        };
        let v1 = BitrateManagerView {
            network_latency_average: v.network_latency_average.submit(network_latency),
            packet_sizes_bits_history: if matched {
                h.skip(i + 1)
            } else {
                Seq::empty()
            },
            bitrate_average,
            ..v
        };
        match mode {
            BitrateMode::Adaptive { decoder_latency_limiter: Some(c), .. } => {
                decoder_limiter_step(v1, c, decoder_latency)
            },
            _ => v1,
        }
    }
}

/// The decoder-latency limiter: counts consecutive slow frames and, at the
/// configured count, lowers the learnt ceiling and asks for a recompute.
pub open spec fn decoder_limiter_step(
    v: BitrateManagerView,
    c: DecoderLatencyLimiter,
    decoder_latency: u64,
) -> BitrateManagerView {
    if decoder_latency > clamp_u64(c.max_decoder_latency_ms * NANOS_PER_MILLI) {
        let count = clamp_u64(v.decoder_latency_overstep_count + 1);
        if count == c.latency_overstep_frames {
            BitrateManagerView {
                dynamic_max_bitrate: scale_ppm(
                    min_int(v.bitrate_average.average(), v.dynamic_max_bitrate as int),
                    c.latency_overstep_multiplier_ppm as int,
                ) as u64,
                update_needed: true,
                decoder_latency_overstep_count: 0,
                ..v
            }
        } else {
            BitrateManagerView { decoder_latency_overstep_count: count as u64, ..v }
        }
    } else {
        BitrateManagerView { decoder_latency_overstep_count: 0, ..v }
    }
}

/// The least time between recomputations in `mode`.
pub open spec fn update_interval_for(mode: BitrateMode) -> u64 {
    match mode {
        BitrateMode::SimpleHeuristic { update_interval_heuristic_ns, .. } => {
            update_interval_heuristic_ns
        },
        _ => UPDATE_INTERVAL_NS,
    }
}

/// Whether a request at `now` recomputes: on a new configuration, on a
/// pending request, or once the interval has passed outside constant mode.
pub open spec fn update_due(v: BitrateManagerView, config: BitrateConfig, now: u64) -> bool {
    ||| v.previous_config != Some(config)
    ||| v.update_needed
    ||| (!(config.mode is ConstantBps) && now >= v.last_update_instant
        + update_interval_for(config.mode))
}

/// `bitrate` held to the optional manual bounds, the maximum first.
pub open spec fn apply_bounds(bitrate: int, max: Option<u64>, min: Option<u64>) -> int {
    let b = match max {
        Some(m) => min_int(bitrate, m as int),
        None => bitrate,
    };
    match min {
        Some(m) => max_int(b, m as int),
        None => b,
    }
}

/// `value` rounded down to a multiple of `step`; zero for a zero step.
pub open spec fn round_down(value: int, step: int) -> int {
    if step == 0 {
        0
    } else {
        value / step * step
    }
}

/// The heuristic's request before bounds: one step down when the network
/// delivers fewer frames than the threshold; otherwise one step down on a
/// high round trip when the draw is at or over the threshold, one step up on
/// a low one when the draw is at or under it.
pub open spec fn heuristic_request(
    previous: int,
    step: int,
    network_fps: int,
    threshold_fps: int,
    rtt: int,
    threshold_rtt: int,
    random: int,
    threshold_u: int,
) -> int {
    let down = if previous >= step {
        previous - step
    } else {
        0
    };
    let up = clamp_u64(previous + step);
    if network_fps >= threshold_fps {
        if rtt > threshold_rtt {
            if random >= threshold_u {
                down
            } else {
                previous
            }
        } else {
            if random <= threshold_u {
                up
            } else {
                previous
            }
        }
    } else {
        down
    }
}

/// The server framerate in millihertz seen from a frame interval, which is
/// capped at one second.
pub open spec fn server_fps_of(frame_interval: int) -> int {
    millihertz(min_int(frame_interval, NANOS_PER_SEC as int), 1)
}

/// The capacity ceiling of the heuristic.
pub open spec fn heuristic_limit(v: BitrateManagerView, capacity_multiplier_ppm: u64) -> int {
    scale_ppm(v.peak_throughput_average.average(), capacity_multiplier_ppm as int)
}

/// Everything that one step of the simple heuristic decides, from the state
/// and a uniform draw in parts per million.
pub open spec fn heuristic_stats_for(
    v: BitrateManagerView,
    max_bitrate_bps: Option<u64>,
    min_bitrate_bps: Option<u64>,
    steps_bps: u64,
    capacity_multiplier_ppm: u64,
    threshold_random_uniform_ppm: u64,
    fps_threshold_multiplier_ppm: u64,
    multiplier_rtt_threshold_ppm: u64,
    random: u64,
) -> HeuristicStats {
    let frame_interval = v.frame_interval_average.average();
    let server_fps = server_fps_of(frame_interval);
    let rtt = v.rtt_average.average();
    let network_fps = millihertz(v.frame_interarrival_average.average(), 1);
    let threshold_fps = scale_ppm(server_fps, fps_threshold_multiplier_ppm as int);
    let threshold_rtt = scale_ppm(
        v.nominal_frame_interval as int,
        multiplier_rtt_threshold_ppm as int,
    );
    let request = heuristic_request(
        v.last_target_bitrate as int,
        steps_bps as int,
        network_fps,
        threshold_fps,
        rtt,
        threshold_rtt,
        random as int,
        threshold_random_uniform_ppm as int,
    );
    let bounded = apply_bounds(request, max_bitrate_bps, min_bitrate_bps);
    let bitrate = round_down(
        min_int(bounded, heuristic_limit(v, capacity_multiplier_ppm)),
        steps_bps as int,
    );
    HeuristicStats {
        frame_interval_ns: frame_interval as u64,
        server_fps_millihz: server_fps as u64,
        steps_bps,
        network_heur_fps_millihz: network_fps as u64,
        rtt_avg_heur_ns: rtt as u64,
        random_prob_ppm: random,
        threshold_fps_millihz: threshold_fps as u64,
        threshold_rtt_ns: threshold_rtt as u64,
        threshold_u_ppm: threshold_random_uniform_ppm,
        requested_bitrate_bps: bitrate as u64,
    }
}

/// The ceiling from the network latency: the measured bitrate scaled by the
/// allowed over the measured network latency; none while that mean is zero.
pub open spec fn network_ceiling(initial: int, max_network_latency_ms: u64, network_latency: int) -> int {
    if network_latency == 0 {
        u64::MAX as int
    } else {
        clamp_u64(
            initial * clamp_u64(max_network_latency_ms * NANOS_PER_MILLI) / network_latency,
        )
    }
}

/// The ceiling from the encoder latency: the measured bitrate scaled by the
/// allowed over the measured share of a frame spent encoding.
pub open spec fn encoder_ceiling(
    initial: int,
    max_saturation_multiplier_ppm: u64,
    nominal_frame_interval: int,
    encoder_latency: int,
) -> int {
    if encoder_latency == 0 {
        u64::MAX as int
    } else {
        clamp_u64(
            scale_ppm(initial, max_saturation_multiplier_ppm as int) * nominal_frame_interval
                / encoder_latency,
        )
    }
}

/// Whether encoding takes more than the allowed share of a frame.
pub open spec fn encoder_saturated(
    max_saturation_multiplier_ppm: u64,
    nominal_frame_interval: int,
    encoder_latency: int,
) -> bool {
    encoder_latency * (PPM as int) > max_saturation_multiplier_ppm * nominal_frame_interval
}

/// Stage of the adaptive chain: the network-latency ceiling, if enabled.
pub open spec fn after_network_limit(
    bitrate: int,
    initial: int,
    max_network_latency_ms: Option<u64>,
    network_latency: int,
) -> int {
    match max_network_latency_ms {
        Some(ms) => min_int(bitrate, network_ceiling(initial, ms, network_latency)),
        None => bitrate,
    }
}

/// Stage of the adaptive chain: the encoder-latency ceiling, if enabled and
/// the encoder is saturated.
pub open spec fn after_encoder_limit(
    bitrate: int,
    initial: int,
    limiter: Option<EncoderLatencyLimiter>,
    nominal_frame_interval: int,
    encoder_latency: int,
) -> int {
    match limiter {
        Some(c) => if encoder_saturated(
            c.max_saturation_multiplier_ppm,
            nominal_frame_interval,
            encoder_latency,
        ) {
            min_int(
                bitrate,
                encoder_ceiling(
                    initial,
                    c.max_saturation_multiplier_ppm,
                    nominal_frame_interval,
                    encoder_latency,
                ),
            )
        } else {
            bitrate
        },
        None => bitrate,
    }
}

/// Stage of the adaptive chain: the manual maximum, if set.
pub open spec fn after_manual_max(bitrate: int, max: Option<u64>) -> int {
    match max {
        Some(m) => min_int(bitrate, m as int),
        None => bitrate,
    }
}

/// The measured bitrate scaled by the saturation multiplier.
pub open spec fn adaptive_scaled(v: BitrateManagerView, saturation_multiplier_ppm: u64) -> int {
    scale_ppm(v.bitrate_average.average(), saturation_multiplier_ppm as int)
}

/// The adaptive chain up to and including the manual maximum.
pub open spec fn adaptive_capped(
    v: BitrateManagerView,
    saturation_multiplier_ppm: u64,
    max_bitrate_bps: Option<u64>,
    max_network_latency_ms: Option<u64>,
    encoder_latency_limiter: Option<EncoderLatencyLimiter>,
) -> int {
    let initial = v.bitrate_average.average();
    let s1 = min_int(adaptive_scaled(v, saturation_multiplier_ppm), v.dynamic_max_bitrate as int);
    let s2 = after_network_limit(
        s1,
        initial,
        max_network_latency_ms,
        v.network_latency_average.average(),
    );
    let s3 = after_encoder_limit(
        s2,
        initial,
        encoder_latency_limiter,
        v.nominal_frame_interval as int,
        v.encoder_latency_average.average(),
    );
    after_manual_max(s3, max_bitrate_bps)
}

/// The stats, and in `requested_bps` the bitrate, of the adaptive strategy.
pub open spec fn adaptive_stats_for(
    v: BitrateManagerView,
    saturation_multiplier_ppm: u64,
    max_bitrate_bps: Option<u64>,
    min_bitrate_bps: Option<u64>,
    max_network_latency_ms: Option<u64>,
    encoder_latency_limiter: Option<EncoderLatencyLimiter>,
) -> NominalBitrateStats {
    let initial = v.bitrate_average.average();
    let capped = adaptive_capped(
        v,
        saturation_multiplier_ppm,
        max_bitrate_bps,
        max_network_latency_ms,
        encoder_latency_limiter,
    );
    let requested = match min_bitrate_bps {
        Some(m) => max_int(capped, m as int),
        None => capped,
    };
    NominalBitrateStats {
        scaled_calculated_bps: Some(adaptive_scaled(v, saturation_multiplier_ppm) as u64),
        decoder_latency_limiter_bps: Some(v.dynamic_max_bitrate),
        network_latency_limiter_bps: match max_network_latency_ms {
            Some(ms) => Some(
                network_ceiling(initial, ms, v.network_latency_average.average()) as u64,
            ),
            None => None,
        },
        encoder_latency_limiter_bps: match encoder_latency_limiter {
            Some(c) => Some(
                encoder_ceiling(
                    initial,
                    c.max_saturation_multiplier_ppm,
                    v.nominal_frame_interval as int,
                    v.encoder_latency_average.average(),
                ) as u64,
            ),
            None => None,
        },
        manual_max_bps: max_bitrate_bps,
        manual_min_bps: min_bitrate_bps,
        requested_bps: requested as u64,
    }
}

/// The framerate, in millihertz, that an update carries.
pub open spec fn framerate_for(v: BitrateManagerView, config: BitrateConfig) -> int {
    let frame_interval = if config.adapt_to_framerate is Some {
        v.frame_interval_average.average()
    } else {
        v.nominal_frame_interval as int
    };
    server_fps_of(frame_interval)
}

/// A request for encoder parameters at `now`, with `random` the uniform
/// draw of the simple heuristic: the new state and the update, if any.
pub open spec fn encoder_params_step(
    v: BitrateManagerView,
    config: BitrateConfig,
    now: u64,
    random: u64,
) -> (BitrateManagerView, Option<EncoderUpdate>) {
    let v1 = BitrateManagerView { update_interval_setting: update_interval_for(config.mode), ..v };
    if !update_due(v, config, now) {
        (v1, None)
    } else {
        let v2 = BitrateManagerView {
            last_update_instant: now,
            update_needed: false,
            previous_config: Some(config),
            ..v1
        };
        let framerate = framerate_for(v, config) as u64;
        match config.mode {
            BitrateMode::ConstantBps(b) => (
                BitrateManagerView { last_target_bitrate: b, ..v2 },
                Some(
                    EncoderUpdate {
                        bitrate_bps: b,
                        framerate_millihz: framerate,
                        stats: NominalBitrateStats { requested_bps: b, ..empty_nominal_stats() },
                    },
                ),
            ),
            BitrateMode::SimpleHeuristic {
                max_bitrate_bps,
                min_bitrate_bps,
                steps_bps,
                capacity_multiplier_ppm,
                threshold_random_uniform_ppm,
                fps_threshold_multiplier_ppm,
                multiplier_rtt_threshold_ppm,
                ..
            } => {
                let hs = heuristic_stats_for(
                    v,
                    max_bitrate_bps,
                    min_bitrate_bps,
                    steps_bps,
                    capacity_multiplier_ppm,
                    threshold_random_uniform_ppm,
                    fps_threshold_multiplier_ppm,
                    multiplier_rtt_threshold_ppm,
                    random,
                );
                let b = hs.requested_bitrate_bps;
                (
                    BitrateManagerView { heur_stats: hs, last_target_bitrate: b, ..v2 },
                    Some(
                        EncoderUpdate {
                            bitrate_bps: b,
                            framerate_millihz: framerate,
                            stats: NominalBitrateStats {
                                manual_max_bps: max_bitrate_bps,
                                manual_min_bps: min_bitrate_bps,
                                requested_bps: b,
                                ..empty_nominal_stats()
                            },
                        },
                    ),
                )
            },
            BitrateMode::Adaptive {
                saturation_multiplier_ppm,
                max_bitrate_bps,
                min_bitrate_bps,
                max_network_latency_ms,
                encoder_latency_limiter,
                ..
            } => {
                let st = adaptive_stats_for(
                    v,
                    saturation_multiplier_ppm,
                    max_bitrate_bps,
                    min_bitrate_bps,
                    max_network_latency_ms,
                    encoder_latency_limiter,
                );
                (
                    BitrateManagerView { last_target_bitrate: st.requested_bps, ..v2 },
                    Some(
                        EncoderUpdate {
                            bitrate_bps: st.requested_bps,
                            framerate_millihz: framerate,
                            stats: st,
                        },
                    ),
                )
            },
        }
    }
}

/// Relies on rand's `thread_rng` and `Rng::gen_range`, which for `low..high`
/// returns a value in `[low, high)`: a uniform draw in parts per million.
#[verifier::external_body]
fn uniform_draw_ppm() -> (r: u64)
    ensures
        r < PPM,
{
    rand::Rng::gen_range(&mut rand::thread_rng(), 0..PPM)
}

fn min_u64(a: u64, b: u64) -> (r: u64)
    ensures
        r == min_int(a as int, b as int),
{
    if a <= b {
        a
    } else {
        b
    }
}

/// Holds `bitrate` to the optional manual bounds.
fn bounded_bitrate(bitrate: u64, max: Option<u64>, min: Option<u64>) -> (r: u64)
    ensures
        r == apply_bounds(bitrate as int, max, min),
{
    let mut b = bitrate;
    if let Some(m) = max {
        b = min_u64(b, m);
    }
    if let Some(m) = min {
        if b < m {
            b = m;
        }
    }
    b
}

/// Rounds `value` down to a multiple of `step`.
pub fn round_down_to_step(value: u64, step: u64) -> (r: u64)
    ensures
        r == round_down(value as int, step as int),
{
    if step == 0 {
        0
    } else {
        proof {
            assert((value / step) * step <= value) by (nonlinear_arith)
                requires
                    step > 0,
            ;
        }
        (value / step) * step
    }
}

/// The heuristic's request before bounds, for a draw `random`.
pub fn heuristic_step(
    previous: u64,
    step: u64,
    network_fps: u64,
    threshold_fps: u64,
    rtt: u64,
    threshold_rtt: u64,
    random: u64,
    threshold_u: u64,
) -> (r: u64)
    ensures
        r == heuristic_request(
            previous as int,
            step as int,
            network_fps as int,
            threshold_fps as int,
            rtt as int,
            threshold_rtt as int,
            random as int,
            threshold_u as int,
        ),
{
    let down = previous.saturating_sub(step);
    let up = previous.saturating_add(step);
    if network_fps >= threshold_fps {
        if rtt > threshold_rtt {
            if random >= threshold_u {
                down
            } else {
                previous
            }
        } else {
            if random <= threshold_u {
                up
            } else {
                previous
            }
        }
    } else {
        down
    }
}

/// Computes `network_ceiling`.
fn network_ceiling_of(initial: u64, max_network_latency_ms: u64, network_latency: u64) -> (r: u64)
    ensures
        r == network_ceiling(initial as int, max_network_latency_ms, network_latency as int),
{
    if network_latency == 0 {
        u64::MAX
    } else {
        let max_ns = millis_to_nanos(max_network_latency_ms);
        proof {
            lemma_mul_fits_u128(initial, max_ns);
        }
        saturate_u64((initial as u128) * (max_ns as u128) / (network_latency as u128))
    }
}

/// Computes `encoder_ceiling`.
fn encoder_ceiling_of(
    initial: u64,
    max_saturation_multiplier_ppm: u64,
    nominal_frame_interval: u64,
    encoder_latency: u64,
) -> (r: u64)
    ensures
        r == encoder_ceiling(
            initial as int,
            max_saturation_multiplier_ppm,
            nominal_frame_interval as int,
            encoder_latency as int,
        ),
{
    if encoder_latency == 0 {
        u64::MAX
    } else {
        let scaled = scale_by_ppm(initial, max_saturation_multiplier_ppm);
        proof {
            lemma_mul_fits_u128(scaled, nominal_frame_interval);
        }
        saturate_u64(
            (scaled as u128) * (nominal_frame_interval as u128) / (encoder_latency as u128),
        )
    }
}

/// Computes `encoder_saturated`.
fn encoder_is_saturated(
    max_saturation_multiplier_ppm: u64,
    nominal_frame_interval: u64,
    encoder_latency: u64,
) -> (r: bool)
    ensures
        r == encoder_saturated(
            max_saturation_multiplier_ppm,
            nominal_frame_interval as int,
            encoder_latency as int,
        ),
{
    proof {
        lemma_mul_fits_u128(encoder_latency, PPM);
        lemma_mul_fits_u128(max_saturation_multiplier_ppm, nominal_frame_interval);
    }
    (encoder_latency as u128) * (PPM as u128) > (max_saturation_multiplier_ppm as u128) * (
    nominal_frame_interval as u128)
}

/// Computes `regime_changed`.
fn is_regime_change(interval: u64, mean: u64, multiplier_ppm: u64) -> (r: bool)
    ensures
        r == regime_changed(interval as int, mean as int, multiplier_ppm as int),
{
    proof {
        lemma_mul_fits_u128(interval, PPM);
        lemma_mul_fits_u128(multiplier_ppm, mean);
        lemma_mul_fits_u128(interval, multiplier_ppm);
        lemma_mul_fits_u128(mean, PPM);
    }
    (interval as u128) * (PPM as u128) > (multiplier_ppm as u128) * (mean as u128) || (
    interval as u128) * (multiplier_ppm as u128) < (mean as u128) * (PPM as u128)
}

/// Computes `server_fps_of`.
fn server_fps(frame_interval: u64) -> (r: u64)
    ensures
        r == server_fps_of(frame_interval as int),
{
    frequency_millihertz(min_u64(frame_interval, NANOS_PER_SEC), 1)
}

/// The elements of `h` from position `start` on.
fn skip_to(h: &Vec<(u64, u64)>, start: usize) -> (r: Vec<(u64, u64)>)
    requires
        start <= h@.len(),
    ensures
        r@ == h@.skip(start as int),
{
    let len = h.len();
    let mut rest: Vec<(u64, u64)> = Vec::new();
    let mut k: usize = start;
    while k < len
        invariant
            start <= k <= len,
            len == h@.len(),
            rest@ == h@.subrange(start as int, k as int),
        decreases len - k,
    {
        rest.push(h[k]);
        k = k + 1;
        assert(rest@ =~= h@.subrange(start as int, k as int));
    }
    assert(rest@ =~= h@.skip(start as int));
    rest
}

/// Chooses the encoder's bitrate and framerate from what the reports taught.
pub struct BitrateManager {
    nominal_frame_interval: u64,
    frame_interval_average: SlidingWindowAverage,
    packet_sizes_bits_history: Vec<(u64, u64)>,
    encoder_latency_average: SlidingWindowAverage,
    network_latency_average: SlidingWindowAverage,
    bitrate_average: SlidingWindowAverage,
    decoder_latency_overstep_count: u64,
    last_frame_instant: u64,
    last_update_instant: u64,
    dynamic_max_bitrate: u64,
    previous_config: Option<BitrateConfig>,
    update_needed: bool,
    last_target_bitrate: u64,
    frame_interarrival_average: SlidingWindowAverage,
    rtt_average: SlidingWindowAverage,
    update_interval_setting: u64,
    heur_stats: HeuristicStats,
    peak_throughput_average: SlidingWindowAverage,
}

impl View for BitrateManager {
    type V = BitrateManagerView;

    closed spec fn view(&self) -> BitrateManagerView {
        BitrateManagerView {
            nominal_frame_interval: self.nominal_frame_interval,
            frame_interval_average: self.frame_interval_average@,
            packet_sizes_bits_history: self.packet_sizes_bits_history@,
            encoder_latency_average: self.encoder_latency_average@,
            network_latency_average: self.network_latency_average@,
            bitrate_average: self.bitrate_average@,
            decoder_latency_overstep_count: self.decoder_latency_overstep_count,
            last_frame_instant: self.last_frame_instant,
            last_update_instant: self.last_update_instant,
            dynamic_max_bitrate: self.dynamic_max_bitrate,
            previous_config: self.previous_config,
            update_needed: self.update_needed,
            last_target_bitrate: self.last_target_bitrate,
            frame_interarrival_average: self.frame_interarrival_average@,
            rtt_average: self.rtt_average@,
            update_interval_setting: self.update_interval_setting,
            heur_stats: self.heur_stats,
            peak_throughput_average: self.peak_throughput_average@,
        }
    }
}

impl BitrateManager {
    /// A controller created at `now` for a nominal framerate in millihertz
    /// and a starting bitrate.
    pub fn new(
        max_history_size: usize,
        initial_framerate_millihz: u64,
        initial_bitrate_bps: u64,
        now: u64,
    ) -> (r: Self)
        requires
            initial_framerate_millihz > 0,
        ensures
            r@.wf(),
            r@ == initial_bitrate_state(
                max_history_size as nat,
                (1_000_000_000_000int / initial_framerate_millihz as int) as u64,
                initial_bitrate_bps,
                now,
            ),
    {
        proof {
            assert(1_000_000_000_000int / (initial_framerate_millihz as int) <= 1_000_000_000_000int)
                by (nonlinear_arith)
                requires
                    initial_framerate_millihz >= 1,
            ;
        }
        let nominal_frame_interval = 1_000_000_000_000u64 / initial_framerate_millihz;
        BitrateManager {
            nominal_frame_interval,
            frame_interval_average: SlidingWindowAverage::new(
                INITIAL_FRAME_INTERVAL_NS,
                max_history_size,
            ),
            packet_sizes_bits_history: Vec::new(),
            encoder_latency_average: SlidingWindowAverage::new(INITIAL_LATENCY_NS, max_history_size),
            network_latency_average: SlidingWindowAverage::new(INITIAL_LATENCY_NS, max_history_size),
            bitrate_average: SlidingWindowAverage::new(initial_bitrate_bps, max_history_size),
            decoder_latency_overstep_count: 0,
            last_frame_instant: now,
            last_update_instant: now,
            dynamic_max_bitrate: u64::MAX,
            previous_config: None,
            update_needed: true,
            last_target_bitrate: initial_bitrate_bps,
            frame_interarrival_average: SlidingWindowAverage::new(
                nominal_frame_interval,
                max_history_size,
            ),
            rtt_average: SlidingWindowAverage::new(INITIAL_LATENCY_NS, max_history_size),
            update_interval_setting: UPDATE_INTERVAL_NS,
            heur_stats: HeuristicStats::default(),
            peak_throughput_average: SlidingWindowAverage::new(
                INITIAL_PEAK_THROUGHPUT_BPS,
                max_history_size,
            ),
        }
    }

    /// Records a frame presented at `now`; with framerate adaptation on, an
    /// interval far off the mean restarts the mean and asks for a recompute.
    pub fn report_frame_present(
        &mut self,
        config: &Option<BitrateAdaptiveFramerateConfig>,
        now: u64,
    )
        requires
            old(self)@.wf(),
        ensures
            final(self)@.wf(),
            final(self)@ == frame_present_step(old(self)@, *config, now),
    {
        let interval = saturating_since(now, self.last_frame_instant);
        self.last_frame_instant = now;
        self.frame_interval_average.submit_sample(interval);
        if let Some(c) = config {
            let mean = self.frame_interval_average.get_average();
            if is_regime_change(interval, mean, c.framerate_reset_threshold_multiplier_ppm) {
                self.frame_interval_average.retain(FRAMERATE_RESET_KEPT_SAMPLES);
                self.update_needed = true;
            }
        }
    }

    /// Records an encoded frame: its encoder latency, and its size in bits
    /// queued under its timestamp.
    pub fn report_frame_encoded(&mut self, timestamp: u64, encoder_latency: u64, size_bytes: usize)
        requires
            old(self)@.wf(),
        ensures
            final(self)@.wf(),
            final(self)@ == frame_encoded_step(old(self)@, timestamp, encoder_latency, size_bytes),
    {
        self.encoder_latency_average.submit_sample(encoder_latency);
        let bits: u64 = if size_bytes as u128 * 8 > u64::MAX as u128 {
            u64::MAX
        } else {
            (size_bytes as u64) * 8
        };
        self.packet_sizes_bits_history.push((timestamp, bits));
    }

    /// Records a network report, and returns the stats of the last heuristic
    /// step.
    pub fn report_network_stats(
        &mut self,
        network_rtt: u64,
        peak_throughput_bps: u64,
        frame_interarrival: u64,
    ) -> (r: HeuristicStats)
        requires
            old(self)@.wf(),
        ensures
            final(self)@.wf(),
            final(self)@ == network_stats_step(
                old(self)@,
                network_rtt,
                peak_throughput_bps,
                frame_interarrival,
            ),
            r == old(self)@.heur_stats,
    {
        self.rtt_average.submit_sample(network_rtt);
        self.peak_throughput_average.submit_sample(peak_throughput_bps);
        self.frame_interarrival_average.submit_sample(frame_interarrival);
        self.heur_stats
    }

    /// Drops queued sizes up to the first one with `timestamp`, and returns
    /// that one, if any.
    fn drain_sizes_to(&mut self, timestamp: u64) -> (r: Option<u64>)
        ensures
            ({
                let h = old(self)@.packet_sizes_bits_history;
                let i = entry_index(h, timestamp);
                &&& has_entry(h, timestamp) ==> 0 <= i < h.len() && r == Some(h[i].1)
                    && final(self)@.packet_sizes_bits_history == h.skip(i + 1)
                &&& !has_entry(h, timestamp) ==> r is None
                    && final(self)@.packet_sizes_bits_history == Seq::<(u64, u64)>::empty()
            }),
            final(self)@ == (BitrateManagerView {
                packet_sizes_bits_history: final(self)@.packet_sizes_bits_history,
                ..old(self)@
            }),
    {
        match find_entry(&self.packet_sizes_bits_history, timestamp) {
            Some(i) => {
                let bits = self.packet_sizes_bits_history[i].1;
                assert(i < self.packet_sizes_bits_history.len());
                self.packet_sizes_bits_history = skip_to(&self.packet_sizes_bits_history, i + 1);
                Some(bits)
            },
            None => {
                self.packet_sizes_bits_history = Vec::new();
                proof {
                    assert(self.packet_sizes_bits_history@ =~= Seq::<(u64, u64)>::empty());
                }
                None
            },
        }
    }

    /// Records the network and decoder latency of the frame at `timestamp`;
    /// a zero network latency carries no signal and changes nothing.
    pub fn report_frame_latencies(
        &mut self,
        config: &BitrateMode,
        timestamp: u64,
        network_latency: u64,
        decoder_latency: u64,
    )
        requires
            old(self)@.wf(),
        ensures
            final(self)@.wf(),
            final(self)@ == frame_latencies_step(
                old(self)@,
                *config,
                timestamp,
                network_latency,
                decoder_latency,
            ),
    {
        if network_latency == 0 {
            return;
        }
        self.network_latency_average.submit_sample(network_latency);
        let matched = self.drain_sizes_to(timestamp);
        if let Some(bits) = matched {
            let sample = rate_per_second(bits, network_latency);
            self.bitrate_average.submit_sample(sample);
        }
        if let BitrateMode::Adaptive { decoder_latency_limiter: Some(c), .. } = config {
            let max_ns = millis_to_nanos(c.max_decoder_latency_ms);
            if decoder_latency > max_ns {
                self.decoder_latency_overstep_count = self.decoder_latency_overstep_count.saturating_add(1);
                if self.decoder_latency_overstep_count == c.latency_overstep_frames {
                    let mean = self.bitrate_average.get_average();
                    self.dynamic_max_bitrate = scale_by_ppm(
                        min_u64(mean, self.dynamic_max_bitrate),
                        c.latency_overstep_multiplier_ppm,
                    );
                    self.update_needed = true;
                    self.decoder_latency_overstep_count = 0;
                }
            } else {
                self.decoder_latency_overstep_count = 0;
            }
        }
    }

    /// One step of the simple heuristic for the draw `random`.
    fn simple_heuristic(
        &self,
        max_bitrate_bps: Option<u64>,
        min_bitrate_bps: Option<u64>,
        steps_bps: u64,
        capacity_multiplier_ppm: u64,
        threshold_random_uniform_ppm: u64,
        fps_threshold_multiplier_ppm: u64,
        multiplier_rtt_threshold_ppm: u64,
        random: u64,
    ) -> (r: HeuristicStats)
        requires
            self@.wf(),
        ensures
            r == heuristic_stats_for(
                self@,
                max_bitrate_bps,
                min_bitrate_bps,
                steps_bps,
                capacity_multiplier_ppm,
                threshold_random_uniform_ppm,
                fps_threshold_multiplier_ppm,
                multiplier_rtt_threshold_ppm,
                random,
            ),
    {
        let frame_interval = self.frame_interval_average.get_average();
        let server_fps = server_fps(frame_interval);
        let rtt = self.rtt_average.get_average();
        let network_fps = frequency_millihertz(self.frame_interarrival_average.get_average(), 1);
        let threshold_fps = scale_by_ppm(server_fps, fps_threshold_multiplier_ppm);
        let threshold_rtt = scale_by_ppm(self.nominal_frame_interval, multiplier_rtt_threshold_ppm);
        let request = heuristic_step(
            self.last_target_bitrate,
            steps_bps,
            network_fps,
            threshold_fps,
            rtt,
            threshold_rtt,
            random,
            threshold_random_uniform_ppm,
        );
        let bounded = bounded_bitrate(request, max_bitrate_bps, min_bitrate_bps);
        let limit = scale_by_ppm(
            self.peak_throughput_average.get_average(),
            capacity_multiplier_ppm,
        );
        let bitrate = round_down_to_step(min_u64(bounded, limit), steps_bps);
        HeuristicStats {
            frame_interval_ns: frame_interval,
            server_fps_millihz: server_fps,
            steps_bps,
            network_heur_fps_millihz: network_fps,
            rtt_avg_heur_ns: rtt,
            random_prob_ppm: random,
            threshold_fps_millihz: threshold_fps,
            threshold_rtt_ns: threshold_rtt,
            threshold_u_ppm: threshold_random_uniform_ppm,
            requested_bitrate_bps: bitrate,
        }
    }

    /// The adaptive strategy's bitrate, in `requested_bps`, and its ceilings.
    fn adaptive(
        &self,
        saturation_multiplier_ppm: u64,
        max_bitrate_bps: Option<u64>,
        min_bitrate_bps: Option<u64>,
        max_network_latency_ms: Option<u64>,
        encoder_latency_limiter: Option<EncoderLatencyLimiter>,
    ) -> (r: NominalBitrateStats)
        requires
            self@.wf(),
        ensures
            r == adaptive_stats_for(
                self@,
                saturation_multiplier_ppm,
                max_bitrate_bps,
                min_bitrate_bps,
                max_network_latency_ms,
                encoder_latency_limiter,
            ),
    {
        let initial = self.bitrate_average.get_average();
        let scaled = scale_by_ppm(initial, saturation_multiplier_ppm);
        let mut bitrate = min_u64(scaled, self.dynamic_max_bitrate);
        let mut network_limit: Option<u64> = None;
        if let Some(ms) = max_network_latency_ms {
            let max = network_ceiling_of(initial, ms, self.network_latency_average.get_average());
            bitrate = min_u64(bitrate, max);
            network_limit = Some(max);
        }
        let mut encoder_limit: Option<u64> = None;
        if let Some(c) = encoder_latency_limiter {
            let encoder_latency = self.encoder_latency_average.get_average();
            let max = encoder_ceiling_of(
                initial,
                c.max_saturation_multiplier_ppm,
                self.nominal_frame_interval,
                encoder_latency,
            );
            encoder_limit = Some(max);
            if encoder_is_saturated(
                c.max_saturation_multiplier_ppm,
                self.nominal_frame_interval,
                encoder_latency,
            ) {
                bitrate = min_u64(bitrate, max);
            }
        }
        if let Some(m) = max_bitrate_bps {
            bitrate = min_u64(bitrate, m);
        }
        if let Some(m) = min_bitrate_bps {
            if bitrate < m {
                bitrate = m;
            }
        }
        NominalBitrateStats {
            scaled_calculated_bps: Some(scaled),
            decoder_latency_limiter_bps: Some(self.dynamic_max_bitrate),
            network_latency_limiter_bps: network_limit,
            encoder_latency_limiter_bps: encoder_limit,
            manual_max_bps: max_bitrate_bps,
            manual_min_bps: min_bitrate_bps,
            requested_bps: bitrate,
        }
    }

    /// New encoder settings for `config` at `now`, or `None` when no
    /// recompute is due; `random` is the heuristic's uniform draw, in parts
    /// per million.
    pub fn get_encoder_params_with_draw(
        &mut self,
        config: &BitrateConfig,
        now: u64,
        random: u64,
    ) -> (r: Option<EncoderUpdate>)
        requires
            old(self)@.wf(),
        ensures
            final(self)@.wf(),
            (final(self)@, r) == encoder_params_step(old(self)@, *config, now, random),
    {
        self.update_interval_setting = match config.mode {
            BitrateMode::SimpleHeuristic { update_interval_heuristic_ns, .. } => {
                update_interval_heuristic_ns
            },
            _ => UPDATE_INTERVAL_NS,
        };
        let config_changed = match self.previous_config {
            Some(prev) => prev != *config,
            None => true,
        };
        if config_changed {
            self.previous_config = Some(*config);
        } else {
            let interval_pending = now < self.last_update_instant || now - self.last_update_instant
                < self.update_interval_setting;
            let constant = match config.mode {
                BitrateMode::ConstantBps(_) => true,
                _ => false,
            };
            if !self.update_needed && (interval_pending || constant) {
                return None;
            }
        }
        let ghost v = old(self)@;
        let frame_interval = if config.adapt_to_framerate.is_some() {
            self.frame_interval_average.get_average()
        } else {
            self.nominal_frame_interval
        };
        let framerate = server_fps(frame_interval);
        let (bitrate, stats) = match config.mode {
            BitrateMode::ConstantBps(b) => {
                let mut stats = NominalBitrateStats::default();
                stats.requested_bps = b;
                (b, stats)
            },
            BitrateMode::SimpleHeuristic {
                max_bitrate_bps,
                min_bitrate_bps,
                steps_bps,
                capacity_multiplier_ppm,
                threshold_random_uniform_ppm,
                fps_threshold_multiplier_ppm,
                multiplier_rtt_threshold_ppm,
                ..
            } => {
                let hs = self.simple_heuristic(
                    max_bitrate_bps,
                    min_bitrate_bps,
                    steps_bps,
                    capacity_multiplier_ppm,
                    threshold_random_uniform_ppm,
                    fps_threshold_multiplier_ppm,
                    multiplier_rtt_threshold_ppm,
                    random,
                );
                self.heur_stats = hs;
                let mut stats = NominalBitrateStats::default();
                stats.manual_max_bps = max_bitrate_bps;
                stats.manual_min_bps = min_bitrate_bps;
                stats.requested_bps = hs.requested_bitrate_bps;
                (hs.requested_bitrate_bps, stats)
            },
            BitrateMode::Adaptive {
                saturation_multiplier_ppm,
                max_bitrate_bps,
                min_bitrate_bps,
                max_network_latency_ms,
                encoder_latency_limiter,
                ..
            } => {
                let stats = self.adaptive(
                    saturation_multiplier_ppm,
                    max_bitrate_bps,
                    min_bitrate_bps,
                    max_network_latency_ms,
                    encoder_latency_limiter,
                );
                (stats.requested_bps, stats)
            },
        };
        self.last_update_instant = now;
        self.update_needed = false;
        self.last_target_bitrate = bitrate;
        Some(EncoderUpdate { bitrate_bps: bitrate, framerate_millihz: framerate, stats })
    }

    /// New encoder settings for `config` at `now`, or `None` when no
    /// recompute is due. The simple heuristic draws its random number here.
    pub fn get_encoder_params(&mut self, config: &BitrateConfig, now: u64) -> (r: Option<
        EncoderUpdate,
    >)
        requires
            old(self)@.wf(),
        ensures
            final(self)@.wf(),
            exists|random: u64|
                random < PPM && (final(self)@, r) == encoder_params_step(
                    old(self)@,
                    *config,
                    now,
                    random,
                ),
    {
        let random = uniform_draw_ppm();
        self.get_encoder_params_with_draw(config, now, random)
    }
}

/// The simple heuristic's configuration with the given parameters.
pub open spec fn heuristic_config(
    max_bitrate_bps: Option<u64>,
    min_bitrate_bps: Option<u64>,
    steps_bps: u64,
    capacity_multiplier_ppm: u64,
    threshold_random_uniform_ppm: u64,
    fps_threshold_multiplier_ppm: u64,
    multiplier_rtt_threshold_ppm: u64,
    update_interval_heuristic_ns: u64,
    adapt_to_framerate: Option<BitrateAdaptiveFramerateConfig>,
) -> BitrateConfig {
    BitrateConfig {
        mode: BitrateMode::SimpleHeuristic {
            max_bitrate_bps,
            min_bitrate_bps,
            steps_bps,
            capacity_multiplier_ppm,
            threshold_random_uniform_ppm,
            fps_threshold_multiplier_ppm,
            multiplier_rtt_threshold_ppm,
            update_interval_heuristic_ns,
        },
        adapt_to_framerate,
    }
}

/// Under the simple heuristic, an update never asks for more than the
/// capacity multiplier times the mean peak throughput, and always lands on a
/// multiple of the step (zero for a zero step).
pub proof fn lemma_heuristic_within_capacity(
    v: BitrateManagerView,
    max_bitrate_bps: Option<u64>,
    min_bitrate_bps: Option<u64>,
    steps_bps: u64,
    capacity_multiplier_ppm: u64,
    threshold_random_uniform_ppm: u64,
    fps_threshold_multiplier_ppm: u64,
    multiplier_rtt_threshold_ppm: u64,
    update_interval_heuristic_ns: u64,
    adapt_to_framerate: Option<BitrateAdaptiveFramerateConfig>,
    now: u64,
    random: u64,
)
    ensures
        ({
            let config = heuristic_config(
                max_bitrate_bps,
                min_bitrate_bps,
                steps_bps,
                capacity_multiplier_ppm,
                threshold_random_uniform_ppm,
                fps_threshold_multiplier_ppm,
                multiplier_rtt_threshold_ppm,
                update_interval_heuristic_ns,
                adapt_to_framerate,
            );
            encoder_params_step(v, config, now, random).1 matches Some(u) ==> {
                &&& u.bitrate_bps <= heuristic_limit(v, capacity_multiplier_ppm)
                &&& steps_bps > 0 ==> u.bitrate_bps % steps_bps == 0
                &&& steps_bps == 0 ==> u.bitrate_bps == 0
            }
        }),
{
    let step = steps_bps as int;
    let frame_interval = v.frame_interval_average.average();
    let request = heuristic_request(
        v.last_target_bitrate as int,
        step,
        millihertz(v.frame_interarrival_average.average(), 1),
        scale_ppm(server_fps_of(frame_interval), fps_threshold_multiplier_ppm as int),
        v.rtt_average.average(),
        scale_ppm(v.nominal_frame_interval as int, multiplier_rtt_threshold_ppm as int),
        random as int,
        threshold_random_uniform_ppm as int,
    );
    let bounded = apply_bounds(request, max_bitrate_bps, min_bitrate_bps);
    let x = min_int(bounded, heuristic_limit(v, capacity_multiplier_ppm));
    lemma_average_bounds(v.peak_throughput_average);
    lemma_scale_ppm_bounds(v.peak_throughput_average.average(), capacity_multiplier_ppm as int);
    assert(0 <= request <= u64::MAX);
    assert(0 <= bounded <= u64::MAX);
    assert(0 <= x <= u64::MAX);
    if step > 0 {
        assert(0 <= x / step * step <= x) by (nonlinear_arith)
            requires
                step > 0,
                x >= 0,
        ;
        assert((x / step * step) % step == 0) by (nonlinear_arith)
            requires
                step > 0,
        ;
    }
}

/// Each ceiling of the adaptive chain only lowers the bitrate: the scaled
/// measurement, then the learnt decoder ceiling, the network-latency
/// ceiling, the encoder-latency ceiling and the manual maximum; the manual
/// minimum alone may raise the result.
pub proof fn lemma_adaptive_chain_non_increasing(
    v: BitrateManagerView,
    saturation_multiplier_ppm: u64,
    max_bitrate_bps: Option<u64>,
    min_bitrate_bps: Option<u64>,
    max_network_latency_ms: Option<u64>,
    encoder_latency_limiter: Option<EncoderLatencyLimiter>,
)
    requires
        v.wf(),
    ensures
        ({
            let initial = v.bitrate_average.average();
            let s0 = adaptive_scaled(v, saturation_multiplier_ppm);
            let s1 = min_int(s0, v.dynamic_max_bitrate as int);
            let s2 = after_network_limit(
                s1,
                initial,
                max_network_latency_ms,
                v.network_latency_average.average(),
            );
            let s3 = after_encoder_limit(
                s2,
                initial,
                encoder_latency_limiter,
                v.nominal_frame_interval as int,
                v.encoder_latency_average.average(),
            );
            let s4 = after_manual_max(s3, max_bitrate_bps);
            let r = adaptive_stats_for(
                v,
                saturation_multiplier_ppm,
                max_bitrate_bps,
                min_bitrate_bps,
                max_network_latency_ms,
                encoder_latency_limiter,
            ).requested_bps as int;
            &&& s1 <= s0
            &&& s2 <= s1
            &&& s3 <= s2
            &&& s4 <= s3
            &&& s4 == adaptive_capped(
                v,
                saturation_multiplier_ppm,
                max_bitrate_bps,
                max_network_latency_ms,
                encoder_latency_limiter,
            )
            &&& min_bitrate_bps is None ==> r == s4
            &&& min_bitrate_bps matches Some(m) ==> r == max_int(s4, m as int)
        }),
{
    let initial = v.bitrate_average.average();
    lemma_average_bounds(v.bitrate_average);
    lemma_average_bounds(v.network_latency_average);
    lemma_average_bounds(v.encoder_latency_average);
    lemma_scale_ppm_bounds(initial, saturation_multiplier_ppm as int);
    if let Some(c) = encoder_latency_limiter {
        lemma_scale_ppm_bounds(initial, c.max_saturation_multiplier_ppm as int);
    }
}

/// A configuration other than the last one seen always recomputes, however
/// recent the last update; an unchanged constant-bitrate configuration with
/// no pending request never does, however long ago the last update was.
pub proof fn lemma_config_change_forces_update(
    v: BitrateManagerView,
    config: BitrateConfig,
    now: u64,
    random: u64,
)
    ensures
        v.previous_config != Some(config) ==> encoder_params_step(v, config, now, random).1 is Some,
        v.previous_config == Some(config) && !v.update_needed && config.mode is ConstantBps
            ==> encoder_params_step(v, config, now, random).1 is None,
{
}

} // verus!