//! Doppler Driver: the correction frequency for the current chunk.
//!
//! In constant mode the shift is the operator-specified constant. In tracking
//! mode it is derived from the satellite's current range-rate through the
//! Doppler formula
//! `doppler_hz = -(range_rate_m_s / c) * carrier_freq_hz`,
//! plus an optional constant offset. All arithmetic is exact: range-rate is
//! taken in mm/s and shifts are produced in mHz, with the single division of
//! the formula truncating toward zero (an error below one milli-hertz).
//!
//! When a recorded stream is replayed against a fixed start time, the
//! observation timestamp advances by samples actually processed, not by wall
//! clock: `elapsed = sample_count / samplerate` whole seconds.

use vstd::arithmetic::div_mod::{lemma_div_is_ordered, lemma_div_multiples_vanish};
use vstd::prelude::*;

verus! {

/// Speed of light in m/s.
pub const SPEED_OF_LIGHT_M_S: u64 = 299_792_458;

/// Speed of light in mm/s: no physical range-rate reaches it.
pub const SPEED_OF_LIGHT_MM_S: i64 = 299_792_458_000;

/// The Doppler correction in mHz for a range-rate in mm/s and a carrier in
/// Hz: `-(range_rate * carrier) / c`, the division truncating toward zero.
/// A receding satellite (positive range-rate) yields a negative correction.
pub open spec fn doppler_shift_mhz_spec(range_rate_mm_s: int, carrier_hz: int) -> int {
    if range_rate_mm_s >= 0 {
        -((range_rate_mm_s * carrier_hz) / (SPEED_OF_LIGHT_M_S as int))
    } else {
        ((-range_rate_mm_s) * carrier_hz) / (SPEED_OF_LIGHT_M_S as int)
    }
}

/// Compute the Doppler correction, in mHz, for the current range-rate.
pub fn doppler_shift_mhz(range_rate_mm_s: i64, carrier_hz: u32) -> (r: i64)
    requires
        -SPEED_OF_LIGHT_MM_S <= range_rate_mm_s <= SPEED_OF_LIGHT_MM_S,
    ensures
        r == doppler_shift_mhz_spec(range_rate_mm_s as int, carrier_hz as int),
        -4_294_967_295_000 <= r <= 4_294_967_295_000,
{
    let mag_rr: u64 = if range_rate_mm_s >= 0 {
        range_rate_mm_s as u64
    } else {
        (-range_rate_mm_s) as u64
    };
    proof {
        assert((mag_rr as int) * (carrier_hz as int) <= 299_792_458_000i64 * 4_294_967_295i64)
            by (nonlinear_arith)
            requires
                0 <= mag_rr as int <= 299_792_458_000i64,
                0 <= carrier_hz as int <= 4_294_967_295i64,
        ;
        assert(299_792_458_000i64 * 4_294_967_295i64 == (SPEED_OF_LIGHT_M_S as int)
            * 4_294_967_295_000i64) by (nonlinear_arith);
        lemma_div_is_ordered(
            (mag_rr as int) * (carrier_hz as int),
            (SPEED_OF_LIGHT_M_S as int) * 4_294_967_295_000i64,
            SPEED_OF_LIGHT_M_S as int,
        );
        lemma_div_multiples_vanish(4_294_967_295_000i64 as int, SPEED_OF_LIGHT_M_S as int);
    }
    let prod: u128 = (mag_rr as u128) * (carrier_hz as u128);
    let q: u64 = (prod / (SPEED_OF_LIGHT_M_S as u128)) as u64;
    if range_rate_mm_s >= 0 {
        -(q as i64)
    } else {
        q as i64
    }
}

/// The tracking-mode shift command in mHz: the Doppler correction for the
/// current range-rate plus the constant offset.
pub fn track_shift_mhz(range_rate_mm_s: i64, carrier_hz: u32, offset_mhz: i64) -> (r: i64)
    requires
        -SPEED_OF_LIGHT_MM_S <= range_rate_mm_s <= SPEED_OF_LIGHT_MM_S,
        -2_147_483_648_000 <= offset_mhz <= 2_147_483_647_000,
    ensures
        r == doppler_shift_mhz_spec(range_rate_mm_s as int, carrier_hz as int) + offset_mhz,
{
    let doppler = doppler_shift_mhz(range_rate_mm_s, carrier_hz);
    doppler + offset_mhz
}

/// Whole seconds of stream time covered by `sample_count` samples.
pub fn elapsed_seconds(sample_count: u64, samplerate: u32) -> (r: u64)
    requires
        samplerate > 0,
    ensures
        r == sample_count as int / samplerate as int,
{
    sample_count / (samplerate as u64)
}

/// The synthetic observation timestamp when replaying a recorded stream: the
/// fixed start time advanced by the stream time of the samples processed so
/// far. Used instead of the wall clock so that replaying faster or slower
/// than real time still observes the orbit at the right instants.
pub fn observation_time(start_time: i64, sample_count: u64, samplerate: u32) -> (t: i64)
    requires
        samplerate > 0,
        sample_count as int / samplerate as int <= i64::MAX,
        start_time + sample_count as int / samplerate as int <= i64::MAX,
    ensures
        t == start_time + sample_count as int / samplerate as int,
{
    let dt = sample_count / (samplerate as u64);
    start_time + (dt as i64)
}

/// Record that one more chunk's samples went through the mixer: the
/// cumulative count advances by the chunk's sample count.
pub fn advance_sample_count(sample_count: u64, chunk_samples: usize) -> (r: u64)
    requires
        sample_count + chunk_samples <= u64::MAX,
    ensures
        r == sample_count + chunk_samples,
{
    sample_count + (chunk_samples as u64)
}

} // verus!
