use doppler::mixer::{
    phase_denominator_u64, rotation_numer, shift_frequency, INDEX_RESET_THRESHOLD,
};

/// Multiply the sample `i + j*q` by `e^(-2*pi*j * num/den)`.
fn rotate(i: f64, q: f64, num: u64, den: u64) -> (f64, f64) {
    let theta = -2.0 * std::f64::consts::PI * (num as f64) / (den as f64);
    let (s, c) = theta.sin_cos();
    (i * c - q * s, i * s + q * c)
}

#[test]
fn zero_shift_rotations_are_zero() {
    // With a zero shift every rotation angle is exactly zero, whatever the
    // starting index: the mixer is the identity transform.
    let mut samplenum: u64 = 12345;
    let rotations = shift_frequency(64, &mut samplenum, 0, 48000);
    assert_eq!(rotations.len(), 64);
    assert!(rotations.iter().all(|&r| r == 0));
}

#[test]
fn zero_shift_identity_on_samples() {
    let den = phase_denominator_u64(48000);
    let inputs = [(0.5f64, -0.25f64), (-1.0, 1.0), (0.001, 0.0)];
    for &(i, q) in inputs.iter() {
        let (ro, qo) = rotate(i, q, 0, den);
        assert!((ro - i).abs() < 1e-12);
        assert!((qo - q).abs() < 1e-12);
    }
}

#[test]
fn rotation_preserves_magnitude() {
    // The rotation factor has unit magnitude, so every output sample keeps
    // the magnitude of its input sample.
    let samplerate = 126_000u32;
    let den = phase_denominator_u64(samplerate);
    let mut samplenum: u64 = 0;
    let rotations = shift_frequency(100, &mut samplenum, 15_000_000, samplerate);
    let (i, q) = (0.6f64, -0.8f64);
    let mag_in = (i * i + q * q).sqrt();
    for &num in rotations.iter() {
        let (ro, qo) = rotate(i, q, num, den);
        let mag_out = (ro * ro + qo * qo).sqrt();
        assert!((mag_out - mag_in).abs() < 1e-12);
    }
}

#[test]
fn split_processing_matches_whole() {
    // Processing 32 samples in one chunk gives the same rotation schedule and
    // final index as any split into two chunks.
    let samplerate = 126_000u32;
    let shift_mhz = 15_000_000i64;
    for split in 0..=32usize {
        let mut n_whole: u64 = 7;
        let whole = shift_frequency(32, &mut n_whole, shift_mhz, samplerate);

        let mut n_split: u64 = 7;
        let mut first = shift_frequency(split, &mut n_split, shift_mhz, samplerate);
        let rest = shift_frequency(32 - split, &mut n_split, shift_mhz, samplerate);
        first.extend_from_slice(&rest);

        assert_eq!(whole, first);
        assert_eq!(n_whole, n_split);
    }
}

#[test]
fn index_reset_keeps_rotation_factors() {
    // Drive the index across the reset threshold and check every returned
    // angle against the unreset index: the reset only discards whole turns.
    let samplerate = 1000u32; // den = 1_000_000
    let shift_mhz = 250_000i64; // step 250_000, period 4
    let den = phase_denominator_u64(samplerate) as u128;
    let step = 250_000u128;
    let start = INDEX_RESET_THRESHOLD - 2;
    let mut samplenum: u64 = start;
    let rotations = shift_frequency(8, &mut samplenum, shift_mhz, samplerate);
    for (k, &num) in rotations.iter().enumerate() {
        let unreset = (start as u128) + k as u128;
        let expected = (step * unreset) % den;
        assert_eq!(num as u128, expected);
    }
    // The index was reset: it is far below the unreset value and keeps the
    // same phase (period divides the difference).
    assert!(samplenum <= INDEX_RESET_THRESHOLD);
    let unreset_final = (start as u128) + 8;
    assert_eq!((samplenum as u128) % 4, unreset_final % 4);
}

#[test]
fn rotation_numer_matches_schedule() {
    let samplerate = 126_000u32;
    let shift_mhz = -7_345_678i64;
    let mut samplenum: u64 = 41;
    let rotations = shift_frequency(5, &mut samplenum, shift_mhz, samplerate);
    // No reset happens this far below the threshold, so the indices are
    // consecutive and rotation_numer agrees pointwise.
    for (k, &num) in rotations.iter().enumerate() {
        assert_eq!(num, rotation_numer(shift_mhz, samplerate, 41 + k as u64));
    }
    assert_eq!(samplenum, 46);
}

#[test]
fn negative_shift_rotates_opposite() {
    let samplerate = 1000u32;
    let den = phase_denominator_u64(samplerate);
    let plus = rotation_numer(250_000, samplerate, 1);
    let minus = rotation_numer(-250_000, samplerate, 1);
    // Opposite shifts give complementary angles.
    assert_eq!(plus + minus, den);
    let (pi, pq) = rotate(1.0, 0.0, plus, den);
    let (mi, mq) = rotate(1.0, 0.0, minus, den);
    assert!((pi - mi).abs() < 1e-12);
    assert!((pq + mq).abs() < 1e-12);
}
