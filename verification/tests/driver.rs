use doppler::driver::{
    advance_sample_count, doppler_shift_mhz, elapsed_seconds, observation_time, track_shift_mhz,
    SPEED_OF_LIGHT_M_S,
};

#[test]
fn doppler_formula_reference_value() {
    // range_rate = 7.5 km/s, carrier = 437 MHz, offset = 0.
    let shift_mhz = track_shift_mhz(7_500_000, 437_000_000, 0);
    let shift_hz = shift_mhz as f64 / 1000.0;
    let expected_hz = -(7500.0 / SPEED_OF_LIGHT_M_S as f64) * 437_000_000.0;
    assert!((shift_hz - expected_hz).abs() < 0.1);
    // The exact milli-hertz value: -(7_500_000 * 437_000_000) / 299_792_458,
    // truncated toward zero.
    assert_eq!(shift_mhz, -10_932_563);
}

#[test]
fn doppler_sign_convention() {
    // A receding satellite (positive range-rate) yields a down-shift, an
    // approaching one an up-shift.
    assert!(doppler_shift_mhz(7_500_000, 437_000_000) < 0);
    assert!(doppler_shift_mhz(-7_500_000, 437_000_000) > 0);
    assert_eq!(
        doppler_shift_mhz(7_500_000, 437_000_000),
        -doppler_shift_mhz(-7_500_000, 437_000_000)
    );
    assert_eq!(doppler_shift_mhz(0, 437_000_000), 0);
}

#[test]
fn track_shift_applies_offset() {
    let base = doppler_shift_mhz(1_234_567, 145_800_000);
    assert_eq!(track_shift_mhz(1_234_567, 145_800_000, 42_000), base + 42_000);
    assert_eq!(track_shift_mhz(1_234_567, 145_800_000, -99_000), base - 99_000);
}

#[test]
fn synthetic_time_advances_by_samples() {
    assert_eq!(elapsed_seconds(0, 126_000), 0);
    assert_eq!(elapsed_seconds(125_999, 126_000), 0);
    assert_eq!(elapsed_seconds(126_000, 126_000), 1);
    assert_eq!(elapsed_seconds(1_260_000, 126_000), 10);
    let start = 1_431_524_928i64;
    assert_eq!(observation_time(start, 0, 126_000), start);
    assert_eq!(observation_time(start, 252_000, 126_000), start + 2);
}

#[test]
fn sample_count_accumulates() {
    let mut count: u64 = 0;
    count = advance_sample_count(count, 2048);
    count = advance_sample_count(count, 2048);
    count = advance_sample_count(count, 17);
    assert_eq!(count, 4113);
}
