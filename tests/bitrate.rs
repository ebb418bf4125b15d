use stream_statistics::bitrate::{round_down_to_step, heuristic_step, BitrateManager};
use stream_statistics::config::{
    BitrateAdaptiveFramerateConfig, BitrateConfig, BitrateMode, DecoderLatencyLimiter,
    EncoderLatencyLimiter,
};

const MS: u64 = 1_000_000;

fn constant(bps: u64, adapt: Option<BitrateAdaptiveFramerateConfig>) -> BitrateConfig {
    BitrateConfig { mode: BitrateMode::ConstantBps(bps), adapt_to_framerate: adapt }
}

fn heuristic(threshold_u_ppm: u64) -> BitrateConfig {
    BitrateConfig {
        mode: BitrateMode::SimpleHeuristic {
            max_bitrate_bps: None,
            min_bitrate_bps: None,
            steps_bps: 1_000_000,
            capacity_multiplier_ppm: 1_000_000,
            threshold_random_uniform_ppm: threshold_u_ppm,
            fps_threshold_multiplier_ppm: 900_000,
            multiplier_rtt_threshold_ppm: 2_000_000,
            update_interval_heuristic_ns: 1_000 * MS,
        },
        adapt_to_framerate: None,
    }
}

fn manager() -> BitrateManager {
    BitrateManager::new(10, 60_000, 30_000_000, 0)
}

#[test]
fn constant_mode_reports_configured_bitrate_and_nominal_framerate() {
    let mut m = manager();
    let u = m.get_encoder_params_with_draw(&constant(10_000_000, None), 0, 0).unwrap();
    assert_eq!(u.bitrate_bps, 10_000_000);
    assert_eq!(u.framerate_millihz, 60_000);
    assert_eq!(u.stats.requested_bps, 10_000_000);
    assert_eq!(u.stats.scaled_calculated_bps, None);
}

#[test]
fn unchanged_constant_config_never_recomputes_on_interval() {
    let mut m = manager();
    let cfg = constant(10_000_000, None);
    assert!(m.get_encoder_params_with_draw(&cfg, 0, 0).is_some());
    assert!(m.get_encoder_params_with_draw(&cfg, 5_000 * MS, 0).is_none());
    assert!(m.get_encoder_params_with_draw(&cfg, 50_000 * MS, 0).is_none());
}

#[test]
fn config_change_forces_immediate_recompute() {
    let mut m = manager();
    assert!(m.get_encoder_params_with_draw(&heuristic(500_000), 0, 0).is_some());
    assert!(m.get_encoder_params_with_draw(&heuristic(500_000), 1, 0).is_none());
    let u = m.get_encoder_params_with_draw(&constant(20_000_000, None), 2, 0).unwrap();
    assert_eq!(u.bitrate_bps, 20_000_000);
}

#[test]
fn heuristic_waits_for_its_update_interval() {
    let mut m = manager();
    let cfg = heuristic(500_000);
    assert!(m.get_encoder_params_with_draw(&cfg, 0, 0).is_some());
    assert!(m.get_encoder_params_with_draw(&cfg, 500 * MS, 0).is_none());
    assert!(m.get_encoder_params_with_draw(&cfg, 1_000 * MS, 0).is_some());
}

#[test]
fn heuristic_steps_up_on_low_draw_with_low_rtt() {
    let mut m = manager();
    let u = m.get_encoder_params_with_draw(&heuristic(500_000), 0, 100_000).unwrap();
    assert_eq!(u.bitrate_bps, 31_000_000);
    let hs = m.report_network_stats(5 * MS, 300_000_000, 16_666_666);
    assert_eq!(hs.server_fps_millihz, 62_500);
    assert_eq!(hs.network_heur_fps_millihz, 60_000);
    assert_eq!(hs.threshold_fps_millihz, 56_250);
    assert_eq!(hs.threshold_rtt_ns, 33_333_332);
    assert_eq!(hs.random_prob_ppm, 100_000);
    assert_eq!(hs.requested_bitrate_bps, 31_000_000);
}

#[test]
fn heuristic_holds_on_high_draw_with_low_rtt() {
    let mut m = manager();
    let u = m.get_encoder_params_with_draw(&heuristic(500_000), 0, 900_000).unwrap();
    assert_eq!(u.bitrate_bps, 30_000_000);
}

#[test]
fn heuristic_steps_down_on_high_rtt_and_high_draw() {
    let mut m = manager();
    m.report_network_stats(100 * MS, 300_000_000, 16_666_666);
    let u = m.get_encoder_params_with_draw(&heuristic(500_000), 0, 600_000).unwrap();
    assert_eq!(u.bitrate_bps, 29_000_000);
}

#[test]
fn heuristic_steps_down_when_network_fps_is_low() {
    let mut m = manager();
    m.report_network_stats(5 * MS, 300_000_000, 100 * MS);
    let u = m.get_encoder_params_with_draw(&heuristic(500_000), 0, 0).unwrap();
    assert_eq!(u.bitrate_bps, 29_000_000);
}

#[test]
fn heuristic_is_capped_by_capacity_and_lands_on_step() {
    let mut m = manager();
    m.report_network_stats(5 * MS, 20_500_000, 16_666_666);
    let u = m.get_encoder_params_with_draw(&heuristic(500_000), 0, 0).unwrap();
    assert_eq!(u.bitrate_bps, 20_000_000);
    assert_eq!(u.bitrate_bps % 1_000_000, 0);
}

#[test]
fn heuristic_with_random_draw_steps_up_when_threshold_is_certain() {
    let mut m = manager();
    let u = m.get_encoder_params(&heuristic(1_000_000), 0).unwrap();
    assert_eq!(u.bitrate_bps, 31_000_000);
}

#[test]
fn round_down_lands_on_multiple() {
    assert_eq!(round_down_to_step(20_500_000, 1_000_000), 20_000_000);
    assert_eq!(round_down_to_step(7, 0), 0);
}

#[test]
fn heuristic_step_saturates_at_zero() {
    assert_eq!(heuristic_step(500, 1000, 0, 10, 0, 0, 0, 0), 0);
}

fn adaptive(
    max: Option<u64>,
    min: Option<u64>,
    decoder: Option<DecoderLatencyLimiter>,
    saturation_ppm: u64,
) -> BitrateConfig {
    BitrateConfig {
        mode: BitrateMode::Adaptive {
            saturation_multiplier_ppm: saturation_ppm,
            max_bitrate_bps: max,
            min_bitrate_bps: min,
            max_network_latency_ms: Some(10),
            encoder_latency_limiter: Some(EncoderLatencyLimiter {
                max_saturation_multiplier_ppm: 500_000,
            }),
            decoder_latency_limiter: decoder,
        },
        adapt_to_framerate: None,
    }
}

#[test]
fn adaptive_chain_records_every_ceiling() {
    let mut m = manager();
    let cfg = adaptive(Some(40_000_000), Some(1_000_000), None, 1_500_000);
    let u = m.get_encoder_params_with_draw(&cfg, 0, 0).unwrap();
    assert_eq!(u.stats.scaled_calculated_bps, Some(45_000_000));
    assert_eq!(u.stats.decoder_latency_limiter_bps, Some(u64::MAX));
    assert_eq!(u.stats.network_latency_limiter_bps, Some(60_000_000));
    assert_eq!(u.stats.encoder_latency_limiter_bps, Some(49_999_998));
    assert_eq!(u.stats.manual_max_bps, Some(40_000_000));
    assert_eq!(u.stats.manual_min_bps, Some(1_000_000));
    assert_eq!(u.bitrate_bps, 40_000_000);
    assert!(u.bitrate_bps <= 45_000_000);
}

#[test]
fn adaptive_minimum_raises_the_result() {
    let mut m = manager();
    let cfg = adaptive(None, Some(80_000_000), None, 1_000_000);
    let u = m.get_encoder_params_with_draw(&cfg, 0, 0).unwrap();
    assert_eq!(u.bitrate_bps, 80_000_000);
}

#[test]
fn encoder_ceiling_applies_once_saturated() {
    let mut m = manager();
    m.report_frame_encoded(1, 15 * MS, 0);
    let cfg = adaptive(None, None, None, 1_000_000);
    let u = m.get_encoder_params_with_draw(&cfg, 0, 0).unwrap();
    // encoder mean (5 ms seed gone, 15 ms sample) over 16.67 ms exceeds 0.5
    assert_eq!(u.stats.encoder_latency_limiter_bps, Some(16_666_666));
    assert_eq!(u.bitrate_bps, 16_666_666);
}

#[test]
fn decoder_oversteps_lower_learnt_ceiling() {
    let mut m = manager();
    let limiter = DecoderLatencyLimiter {
        max_decoder_latency_ms: 10,
        latency_overstep_frames: 2,
        latency_overstep_multiplier_ppm: 500_000,
    };
    let mode = adaptive(None, None, Some(limiter), 1_000_000).mode;
    m.report_frame_encoded(1, 5 * MS, 125_000);
    m.report_frame_latencies(&mode, 1, 10 * MS, 20 * MS);
    m.report_frame_encoded(2, 5 * MS, 125_000);
    m.report_frame_latencies(&mode, 2, 10 * MS, 20 * MS);
    let cfg = BitrateConfig {
        mode: BitrateMode::Adaptive {
            saturation_multiplier_ppm: 1_000_000,
            max_bitrate_bps: None,
            min_bitrate_bps: None,
            max_network_latency_ms: None,
            encoder_latency_limiter: None,
            decoder_latency_limiter: Some(limiter),
        },
        adapt_to_framerate: None,
    };
    let u = m.get_encoder_params_with_draw(&cfg, 0, 0).unwrap();
    assert_eq!(u.stats.scaled_calculated_bps, Some(100_000_000));
    assert_eq!(u.stats.decoder_latency_limiter_bps, Some(50_000_000));
    assert_eq!(u.bitrate_bps, 50_000_000);
}

#[test]
fn fast_decoder_resets_overstep_count() {
    let mut m = manager();
    let limiter = DecoderLatencyLimiter {
        max_decoder_latency_ms: 10,
        latency_overstep_frames: 2,
        latency_overstep_multiplier_ppm: 500_000,
    };
    let mode = adaptive(None, None, Some(limiter), 1_000_000).mode;
    m.report_frame_latencies(&mode, 1, 10 * MS, 20 * MS);
    m.report_frame_latencies(&mode, 2, 10 * MS, 1 * MS);
    m.report_frame_latencies(&mode, 3, 10 * MS, 20 * MS);
    let cfg = BitrateConfig {
        mode: BitrateMode::Adaptive {
            saturation_multiplier_ppm: 1_000_000,
            max_bitrate_bps: None,
            min_bitrate_bps: None,
            max_network_latency_ms: None,
            encoder_latency_limiter: None,
            decoder_latency_limiter: Some(limiter),
        },
        adapt_to_framerate: None,
    };
    let u = m.get_encoder_params_with_draw(&cfg, 0, 0).unwrap();
    assert_eq!(u.stats.decoder_latency_limiter_bps, Some(u64::MAX));
    assert_eq!(u.bitrate_bps, 30_000_000);
}

#[test]
fn zero_network_latency_is_ignored() {
    let mut m = manager();
    m.report_frame_encoded(1, 5 * MS, 125_000);
    m.report_frame_latencies(&BitrateMode::ConstantBps(1), 1, 0, 0);
    m.report_frame_latencies(&BitrateMode::ConstantBps(1), 1, 10 * MS, 0);
    let cfg = adaptive(None, None, None, 1_000_000);
    let u = m.get_encoder_params_with_draw(&cfg, 0, 0).unwrap();
    assert_eq!(u.stats.scaled_calculated_bps, Some(100_000_000));
}

#[test]
fn unmatched_sizes_are_drained() {
    let mut m = manager();
    m.report_frame_encoded(1, 5 * MS, 1_000);
    m.report_frame_encoded(2, 5 * MS, 125_000);
    m.report_frame_latencies(&BitrateMode::ConstantBps(1), 2, 10 * MS, 0);
    m.report_frame_latencies(&BitrateMode::ConstantBps(1), 1, 10 * MS, 0);
    let cfg = adaptive(None, None, None, 1_000_000);
    let u = m.get_encoder_params_with_draw(&cfg, 0, 0).unwrap();
    assert_eq!(u.stats.scaled_calculated_bps, Some(100_000_000));
}

#[test]
fn framerate_regime_change_restarts_mean_and_forces_update() {
    let mut m = manager();
    let adapt = Some(BitrateAdaptiveFramerateConfig {
        framerate_reset_threshold_multiplier_ppm: 2_000_000,
    });
    for k in 1..=8u64 {
        m.report_frame_present(&adapt, 16 * MS * k);
    }
    let cfg = constant(10_000_000, adapt);
    let u = m.get_encoder_params_with_draw(&cfg, 130 * MS, 0).unwrap();
    assert_eq!(u.framerate_millihz, 62_500);
    assert!(m.get_encoder_params_with_draw(&cfg, 131 * MS, 0).is_none());
    m.report_frame_present(&adapt, 628 * MS);
    let u = m.get_encoder_params_with_draw(&cfg, 629 * MS, 0).unwrap();
    assert_eq!(u.framerate_millihz, 8_865);
}

fn heuristic_rtt_case() -> BitrateConfig {
    BitrateConfig {
        mode: BitrateMode::SimpleHeuristic {
            max_bitrate_bps: None,
            min_bitrate_bps: None,
            steps_bps: 1_000_000,
            capacity_multiplier_ppm: 1_000_000,
            threshold_random_uniform_ppm: 500_000,
            fps_threshold_multiplier_ppm: 0,
            multiplier_rtt_threshold_ppm: 1_000_000,
            update_interval_heuristic_ns: 1_000 * MS,
        },
        adapt_to_framerate: None,
    }
}

#[test]
fn rtt_threshold_follows_nominal_frame_interval() {
    // nominal 10 ms, frame-interval mean 16 ms, round trip 12 ms
    let mut m = BitrateManager::new(10, 100_000, 100_000_000, 0);
    m.report_network_stats(12 * MS, 300_000_000, 10 * MS);
    let u = m.get_encoder_params_with_draw(&heuristic_rtt_case(), 0, 600_000).unwrap();
    assert_eq!(u.bitrate_bps, 99_000_000);
    let hs = m.report_network_stats(12 * MS, 300_000_000, 10 * MS);
    assert_eq!(hs.threshold_rtt_ns, 10 * MS);
    assert_eq!(hs.frame_interval_ns, 16 * MS);
}

#[test]
fn high_rtt_with_low_draw_holds_bitrate() {
    let mut m = BitrateManager::new(10, 100_000, 100_000_000, 0);
    m.report_network_stats(12 * MS, 300_000_000, 10 * MS);
    let u = m.get_encoder_params_with_draw(&heuristic_rtt_case(), 0, 100_000).unwrap();
    assert_eq!(u.bitrate_bps, 100_000_000);
}
