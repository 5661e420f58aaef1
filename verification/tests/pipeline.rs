use doppler::dsp::{convert_complex_to_iqf32, convert_complex_to_iqi16, Complex};
use doppler::stream::{next_loop_state, prepare_chunk, LoopState, PreparedChunk, SampleBuf, BUFFER_SIZE};
use doppler::usage::DataType;

/// Multiply the sample `i + j*q` by `e^(-2*pi*j * num/den)`.
fn rotate(i: f64, q: f64, num: u64, den: u64) -> (f64, f64) {
    let theta = -2.0 * std::f64::consts::PI * (num as f64) / (den as f64);
    let (s, c) = theta.sin_cos();
    (i * c - q * s, i * s + q * c)
}

/// Scale a rotated component to the fixed-point wire range, truncating toward
/// zero and wrapping as two's complement (no saturation).
fn to_i16(x: f64) -> i16 {
    (x * 32767.0) as i64 as i16
}

/// Rotate a prepared chunk and encode it as fixed-point wire bytes.
fn rotate_and_encode_i16(chunk: &PreparedChunk) -> Vec<u8> {
    let den = chunk.denominator;
    let mut out: Vec<Complex<i16>> = Vec::new();
    match &chunk.samples {
        SampleBuf::I16(samples) => {
            for (k, s) in samples.iter().enumerate() {
                let i = s.re as f64 / 32768.0;
                let q = s.im as f64 / 32768.0;
                let (ro, qo) = rotate(i, q, chunk.rotations[k], den);
                out.push(Complex::new(to_i16(ro), to_i16(qo)));
            }
        }
        SampleBuf::F32(samples) => {
            for (k, s) in samples.iter().enumerate() {
                let i = f32::from_bits(s.re) as f64;
                let q = f32::from_bits(s.im) as f64;
                let (ro, qo) = rotate(i, q, chunk.rotations[k], den);
                out.push(Complex::new(to_i16(ro), to_i16(qo)));
            }
        }
    }
    convert_complex_to_iqi16(&out)
}

#[test]
fn test_shift_frequency_i16() {
    // Two fixed-point samples shifted by 15 kHz at 126 kS/s.
    let inbuf: [u8; 8] = [190, 255, 79, 0, 130, 255, 109, 0];
    let mut samplenr: u64 = 0;
    let chunk = prepare_chunk(&inbuf, DataType::I16, &mut samplenr, 15_000_000, 126_000).unwrap();
    let outbuf = rotate_and_encode_i16(&chunk);

    let expectedout: [u8; 8] = [191, 255, 78, 0, 238, 255, 165, 0];
    assert_eq!(outbuf, expectedout);
    assert_eq!(samplenr, 2);
    assert_eq!(outbuf.len(), 8);
}

#[test]
fn test_shift_frequency_f32() {
    // The same two samples as 32-bit floats on the wire, converted to the
    // fixed-point output format.
    let inbuf: [u8; 16] = [0, 254, 3, 187, 0, 64, 29, 59, 0, 114, 124, 187, 0, 218, 91, 59];
    let mut samplenr: u64 = 0;
    let chunk = prepare_chunk(&inbuf, DataType::F32, &mut samplenr, 15_000_000, 126_000).unwrap();
    let outbuf = rotate_and_encode_i16(&chunk);

    let expectedout: [u8; 8] = [191, 255, 78, 0, 239, 255, 166, 0];
    assert_eq!(outbuf, expectedout);
    assert_eq!(samplenr, 2);
    assert_eq!(outbuf.len(), 8);
}

#[test]
fn chunked_processing_matches_whole() {
    // Processing a stream whole or split into two chunks at any sample
    // boundary yields identical output bytes and the same final index.
    let inbuf: [u8; 16] = [
        190, 255, 79, 0, 130, 255, 109, 0, 10, 0, 246, 255, 100, 1, 200, 254,
    ];
    for split in [0usize, 4, 8, 12, 16] {
        let mut n_whole: u64 = 3;
        let whole_chunk =
            prepare_chunk(&inbuf, DataType::I16, &mut n_whole, 15_000_000, 126_000).unwrap();
        let whole = rotate_and_encode_i16(&whole_chunk);

        let mut n_split: u64 = 3;
        let c1 = prepare_chunk(&inbuf[..split], DataType::I16, &mut n_split, 15_000_000, 126_000)
            .unwrap();
        let mut parts = rotate_and_encode_i16(&c1);
        let c2 = prepare_chunk(&inbuf[split..], DataType::I16, &mut n_split, 15_000_000, 126_000)
            .unwrap();
        parts.extend_from_slice(&rotate_and_encode_i16(&c2));

        assert_eq!(whole, parts);
        assert_eq!(n_whole, n_split);
    }
}

#[test]
fn malformed_chunk_is_rejected() {
    // A fixed-point chunk of 3 bytes is not sample-aligned: it is rejected,
    // not padded or truncated, and the running index does not move.
    let inbuf: [u8; 3] = [190, 255, 79];
    let mut samplenr: u64 = 5;
    let r = prepare_chunk(&inbuf, DataType::I16, &mut samplenr, 15_000_000, 126_000);
    assert!(r.is_err());
    assert_eq!(samplenr, 5);
}

#[test]
fn short_final_chunk_is_processed() {
    // One sample (4 bytes) is far less than the nominal chunk size, but it is
    // a whole sample, so it is processed; the short read then terminates the
    // loop.
    let inbuf: [u8; 4] = [190, 255, 79, 0];
    let mut samplenr: u64 = 0;
    let chunk = prepare_chunk(&inbuf, DataType::I16, &mut samplenr, 0, 126_000).unwrap();
    assert_eq!(chunk.rotations.len(), 1);
    assert_eq!(samplenr, 1);
    assert_eq!(next_loop_state(inbuf.len()), LoopState::Terminated);
}

#[test]
fn loop_terminates_exactly_on_short_read() {
    assert_eq!(next_loop_state(BUFFER_SIZE), LoopState::Running);
    assert_eq!(next_loop_state(BUFFER_SIZE - 1), LoopState::Terminated);
    assert_eq!(next_loop_state(0), LoopState::Terminated);
}

#[test]
fn f32_output_keeps_float_samples() {
    // With a zero shift and float output, the pipeline reproduces the input
    // bit patterns exactly.
    let values: [f32; 4] = [0.25, -0.125, 0.5, -1.0];
    let mut inbuf: Vec<u8> = Vec::new();
    for v in values {
        inbuf.extend_from_slice(&v.to_le_bytes());
    }
    let mut samplenr: u64 = 0;
    let chunk = prepare_chunk(&inbuf, DataType::F32, &mut samplenr, 0, 48_000).unwrap();
    let den = chunk.denominator;
    let mut out: Vec<Complex<u32>> = Vec::new();
    match &chunk.samples {
        SampleBuf::F32(samples) => {
            for (k, s) in samples.iter().enumerate() {
                let i = f32::from_bits(s.re) as f64;
                let q = f32::from_bits(s.im) as f64;
                let (ro, qo) = rotate(i, q, chunk.rotations[k], den);
                out.push(Complex::new((ro as f32).to_bits(), (qo as f32).to_bits()));
            }
        }
        SampleBuf::I16(_) => panic!("expected float samples"),
    }
    let outbuf = convert_complex_to_iqf32(&out);
    assert_eq!(outbuf, inbuf);
}

#[test]
fn wrapping_encode_matches_documented_overflow() {
    // A float sample beyond the fixed-point range wraps like a two's
    // complement 16-bit truncation; it is not saturated.
    let v = 1.5f64; // 1.5 * 32767 = 49150.5 -> 49150 -> wraps to -16386
    assert_eq!(to_i16(v), -16386i16);
    let bytes = convert_complex_to_iqi16(&vec![Complex::new(to_i16(v), 0i16)]);
    assert_eq!(bytes, vec![0xfe, 0xbf, 0, 0]);
}
