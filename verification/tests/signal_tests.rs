use signal_control::{quantize, sample, AppState, FULL_LEVEL, HALF_LEVEL};

#[test]
fn constant_sample_returns_level_unchanged() {
    let levels: [u32; 5] = [0, 1, 123_456, 500_000, 1_000_000];
    let times: [u64; 4] = [0, 1, 999, 123_456_789];
    for &level in levels.iter() {
        for &t in times.iter() {
            assert_eq!(sample(AppState::Constant(level), t), level);
        }
    }
}

#[test]
fn oscillating_sample_stays_in_range() {
    let freqs: [u32; 4] = [1, 100, 5000, 1_000_000];
    for &f in freqs.iter() {
        let mut t: u64 = 0;
        while t < 3_000_000 {
            let v = sample(AppState::Circular(f), t);
            assert!(v <= FULL_LEVEL);
            t += 13_337;
        }
    }
}

#[test]
fn oscillating_sample_starts_at_midpoint() {
    for &f in [1u32, 100, 5000, 987_654].iter() {
        assert_eq!(sample(AppState::Circular(f), 0), HALF_LEVEL);
    }
    assert_eq!(quantize(sample(AppState::Circular(5000), 0)), 127);
}

#[test]
fn oscillating_sample_repeats_after_one_period() {
    // 5 Hz is 5000 millihertz; one period is 200_000 microseconds.
    let f: u32 = 5000;
    let period: u64 = 200_000;
    for &t in [0u64, 1, 12_345, 123_456, 999_999].iter() {
        assert_eq!(
            sample(AppState::Circular(f), t),
            sample(AppState::Circular(f), t + period)
        );
    }
    // 1 kHz is 1_000_000 millihertz; one period is 1000 microseconds.
    let g: u32 = 1_000_000;
    for &t in [0u64, 7, 500, 99_999].iter() {
        assert_eq!(
            sample(AppState::Circular(g), t),
            sample(AppState::Circular(g), t + 1000)
        );
    }
}

#[test]
fn oscillating_sample_peaks_at_quarter_cycle() {
    // At 5 Hz, a quarter period of 50_000 microseconds reaches the crest
    // and three quarters reach the trough.
    assert_eq!(sample(AppState::Circular(5000), 50_000), FULL_LEVEL);
    assert_eq!(quantize(sample(AppState::Circular(5000), 50_000)), 255);
    assert_eq!(sample(AppState::Circular(5000), 150_000), 0);
    assert_eq!(quantize(sample(AppState::Circular(5000), 150_000)), 0);
}

#[test]
fn oscillating_sample_exact_at_eighth_cycle() {
    // 1 Hz, an eighth of a cycle in: the fixed-point wave gives exactly
    // (1_000_000 + 705_882) / 2.
    assert_eq!(sample(AppState::Circular(1000), 125_000), 852_941);
}

#[test]
fn oscillating_half_cycle_returns_to_midpoint() {
    assert_eq!(sample(AppState::Circular(5000), 100_000), HALF_LEVEL);
}

#[test]
fn quantize_matches_truncating_conversion() {
    assert_eq!(quantize(0), 0);
    assert_eq!(quantize(1_000_000), 255);
    assert_eq!(quantize(500_000), 127);
    assert_eq!(quantize(1), 0);
    assert_eq!(quantize(999_999), 254);
    // Levels beyond full scale saturate at the sink's ceiling.
    assert_eq!(quantize(u32::MAX), 255);
}
