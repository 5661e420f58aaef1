//! Mixer: a numerically-controlled oscillator with exact phase arithmetic.
//!
//! For the sample at global index `n`, with a desired shift `f` (in mHz) and a
//! stream sample rate `fs` (in Hz), the mixer multiplies the sample by the
//! unit-magnitude rotation factor `e^(i * phase(n))` where
//! `phase(n) = -2*pi * (f / (1000 * fs)) * n`. Since the rotation factor only
//! depends on the phase modulo a full turn, this module represents each angle
//! exactly as the rational number `numer / den` of a turn, with
//! `den = 1000 * fs` and `numer = (step * n) mod den` computed in exact
//! integer arithmetic (`step` is the shift reduced into `[0, den)`). The
//! caller evaluates `e^(-2*pi*i * numer/den)` with its trigonometric primitive
//! of choice; the argument magnitude never exceeds one turn, so no precision
//! is lost to an unboundedly growing index.
//!
//! The running sample index advances once per sample, across all chunks ever
//! processed, which keeps the output phase-continuous at chunk boundaries
//! even while the shift changes between chunks. To bound the index over an
//! unbounded stream, it is periodically reset: once it passes a fixed
//! threshold it is reduced modulo the period of the rotation sequence, which
//! provably leaves every subsequent rotation factor unchanged (a reset only
//! discards whole turns of phase).

use vstd::arithmetic::div_mod::{
    lemma_fundamental_div_mod, lemma_fundamental_div_mod_converse_mod, lemma_mod_bound,
    lemma_mod_multiples_basic, lemma_mod_multiples_vanish, lemma_mod_self_0,
};
use vstd::prelude::*;

verus! {

/// Once the running sample index would pass this threshold it is reduced
/// modulo the rotation period. The value is a tunable bound on the index, on
/// the order of a million samples; correctness does not depend on it.
pub const INDEX_RESET_THRESHOLD: u64 = 1_000_000;

/// The denominator of every rotation angle for a stream at `samplerate` Hz:
/// angles are exact multiples of `1 / (1000 * samplerate)` of a turn because
/// shifts are given in whole milli-hertz.
pub open spec fn phase_denominator(samplerate: u32) -> int {
    1000 * samplerate
}

/// The per-sample phase step, as a numerator over `phase_denominator`:
/// the shift in milli-hertz reduced into `[0, den)`. Reducing the step keeps
/// later products small and does not change any rotation factor, since only
/// the phase modulo a full turn matters.
pub open spec fn phase_step(shift_mhz: i64, samplerate: u32) -> int {
    (shift_mhz as int) % phase_denominator(samplerate)
}

/// The rotation-angle numerator for the sample at global index `n`: the
/// rotation factor applied to that sample is
/// `e^(-2*pi*i * rotation_numer_spec(..) / phase_denominator(..))`.
pub open spec fn rotation_numer_spec(shift_mhz: i64, samplerate: u32, n: int) -> int {
    (phase_step(shift_mhz, samplerate) * n) % phase_denominator(samplerate)
}

/// Greatest common divisor by Euclid's algorithm.
pub open spec fn gcd(a: nat, b: nat) -> nat
    decreases b,
{
    if b == 0 {
        a
    } else {
        gcd(b, a % b)
    }
}

/// `gcd(a, b)` is positive and divides both arguments whenever `b > 0`.
pub proof fn lemma_gcd_divides(a: nat, b: nat)
    requires
        b > 0,
    ensures
        gcd(a, b) > 0,
        a as int % (gcd(a, b) as int) == 0,
        b as int % (gcd(a, b) as int) == 0,
    decreases b,
{
    let r = a % b;
    if r == 0 {
        assert(gcd(a, b) == b);
        lemma_mod_self_0(b as int);
    } else {
        lemma_gcd_divides(b, r);
        let g = gcd(b, r) as int;
        lemma_fundamental_div_mod(a as int, b as int);
        lemma_fundamental_div_mod(b as int, g);
        let q = a as int / b as int;
        let bg = b as int / g;
        assert(a as int == g * (bg * q) + r) by (nonlinear_arith)
            requires
                a as int == (b as int) * q + r,
                b as int == g * bg,
        ;
        lemma_mod_multiples_vanish(bg * q, r as int, g);
    }
}

/// The period of the rotation sequence: after this many samples the exact
/// rotation angle repeats, because `step * period` is a whole number of turns.
pub open spec fn reset_period(shift_mhz: i64, samplerate: u32) -> int {
    phase_denominator(samplerate) / (gcd(
        phase_step(shift_mhz, samplerate) as nat,
        phase_denominator(samplerate) as nat,
    ) as int)
}

/// The rotation period is at least one sample and at most one denominator.
pub proof fn lemma_reset_period_bounds(shift_mhz: i64, samplerate: u32)
    requires
        samplerate > 0,
    ensures
        0 < reset_period(shift_mhz, samplerate) <= phase_denominator(samplerate),
{
    let den = phase_denominator(samplerate);
    let m = phase_step(shift_mhz, samplerate);
    lemma_mod_bound(shift_mhz as int, den);
    lemma_gcd_divides(m as nat, den as nat);
    let g = gcd(m as nat, den as nat) as int;
    lemma_fundamental_div_mod(den, g);
    let p = den / g;
    assert(0 < p <= den) by (nonlinear_arith)
        requires
            den == g * p,
            g > 0,
            den > 0,
    ;
}

/// Index reset is phase-safe: reducing any index modulo the rotation period
/// leaves its rotation factor unchanged, since the discarded part of the
/// phase is a whole number of turns.
pub proof fn lemma_index_reset_same_rotation(shift_mhz: i64, samplerate: u32, n: int)
    requires
        samplerate > 0,
    ensures
        rotation_numer_spec(shift_mhz, samplerate, n % reset_period(shift_mhz, samplerate))
            == rotation_numer_spec(shift_mhz, samplerate, n),
{
    let den = phase_denominator(samplerate);
    let m = phase_step(shift_mhz, samplerate);
    lemma_mod_bound(shift_mhz as int, den);
    lemma_gcd_divides(m as nat, den as nat);
    let g = gcd(m as nat, den as nat) as int;
    let p = reset_period(shift_mhz, samplerate);
    lemma_reset_period_bounds(shift_mhz, samplerate);
    lemma_fundamental_div_mod(den, g);
    lemma_fundamental_div_mod(m, g);
    let q = n / p;
    let r = n % p;
    lemma_fundamental_div_mod(n, p);
    let mg = m / g;
    assert(m * n == den * (mg * q) + m * r) by (nonlinear_arith)
        requires
            n == p * q + r,
            m == g * mg,
            den == g * p,
    ;
    lemma_mod_multiples_vanish(mg * q, m * r, den);
}

/// How the running sample index advances after each processed sample: it
/// increments, and is reduced modulo the rotation period once it passes the
/// reset threshold.
pub open spec fn next_index(shift_mhz: i64, samplerate: u32, n: int) -> int {
    if n + 1 > INDEX_RESET_THRESHOLD {
        (n + 1) % reset_period(shift_mhz, samplerate)
    } else {
        n + 1
    }
}

/// The running sample index after `steps` samples have been processed,
/// starting from `n`.
pub open spec fn index_after(shift_mhz: i64, samplerate: u32, n: int, steps: nat) -> int
    decreases steps,
{
    if steps == 0 {
        n
    } else {
        next_index(shift_mhz, samplerate, index_after(shift_mhz, samplerate, n, (steps - 1) as nat))
    }
}

/// Index reset never changes what the mixer does: the rotation factor for the
/// sample after an index advance equals the factor for the unreset index
/// `n + 1`, whether or not the advance reset the index.
pub proof fn lemma_next_index_same_rotation(shift_mhz: i64, samplerate: u32, n: int)
    requires
        samplerate > 0,
    ensures
        rotation_numer_spec(shift_mhz, samplerate, next_index(shift_mhz, samplerate, n))
            == rotation_numer_spec(shift_mhz, samplerate, n + 1),
{
    if n + 1 > INDEX_RESET_THRESHOLD {
        lemma_index_reset_same_rotation(shift_mhz, samplerate, n + 1);
    }
}

/// The rotation-angle numerators for `len` consecutive samples starting at
/// running index `n`: sample `k` of the run is rotated by the angle with
/// numerator `rotation_schedule(..)[k]`.
pub open spec fn rotation_schedule(shift_mhz: i64, samplerate: u32, n: int, len: nat) -> Seq<int> {
    Seq::new(len, |k: int| rotation_numer_spec(shift_mhz, samplerate, index_after(shift_mhz, samplerate, n, k as nat)))
}

/// Advancing the index `a + b` steps is advancing it `a` steps, then `b`.
pub proof fn lemma_index_after_adds(shift_mhz: i64, samplerate: u32, n: int, a: nat, b: nat)
    ensures
        index_after(shift_mhz, samplerate, n, a + b)
            == index_after(shift_mhz, samplerate, index_after(shift_mhz, samplerate, n, a), b),
    decreases b,
{
    if b > 0 {
        lemma_index_after_adds(shift_mhz, samplerate, n, a, (b - 1) as nat);
    }
}

/// Phase continuity across chunk boundaries: the rotation schedule of a run
/// of `a + b` samples equals the schedule of its first `a` samples followed
/// by the schedule of the remaining `b`, resumed from the index the first
/// part ends with. Splitting a sample sequence into chunks at any point
/// therefore yields the same rotation factors as processing it whole.
pub proof fn lemma_schedule_chunk_split(shift_mhz: i64, samplerate: u32, n: int, a: nat, b: nat)
    ensures
        rotation_schedule(shift_mhz, samplerate, n, a + b)
            == rotation_schedule(shift_mhz, samplerate, n, a)
                + rotation_schedule(
                    shift_mhz,
                    samplerate,
                    index_after(shift_mhz, samplerate, n, a),
                    b,
                ),
{
    let whole = rotation_schedule(shift_mhz, samplerate, n, a + b);
    let first = rotation_schedule(shift_mhz, samplerate, n, a);
    let rest = rotation_schedule(shift_mhz, samplerate, index_after(shift_mhz, samplerate, n, a), b);
    assert forall|k: int| a <= k < a + b implies whole[k] == rest[k - a] by {
        lemma_index_after_adds(shift_mhz, samplerate, n, a, (k - a) as nat);
    }
    assert(whole =~= first + rest);
}

/// With a zero shift the mixer is the identity transform: every rotation
/// angle is zero, whatever the index, so every rotation factor is one.
pub proof fn lemma_zero_shift_identity(samplerate: u32, n: int)
    requires
        samplerate > 0,
    ensures
        rotation_numer_spec(0i64, samplerate, n) == 0,
{
    let den = phase_denominator(samplerate);
    lemma_mod_multiples_basic(0, den);
    assert(phase_step(0i64, samplerate) == 0);
    assert(0 * n == 0);
}

/// With a zero shift the whole rotation schedule is the identity: every
/// sample of every chunk, from any starting index, gets a zero angle.
pub proof fn lemma_zero_shift_schedule(samplerate: u32, n: int, len: nat)
    requires
        samplerate > 0,
    ensures
        forall|k: int|
            0 <= k < len ==> rotation_schedule(0i64, samplerate, n, len)[k] == 0,
{
    assert forall|k: int| 0 <= k < len implies rotation_schedule(0i64, samplerate, n, len)[k]
        == 0 by {
        lemma_zero_shift_identity(samplerate, index_after(0i64, samplerate, n, k as nat));
    }
}

/// Greatest common divisor, by Euclid's algorithm.
fn gcd_u64(a: u64, b: u64) -> (g: u64)
    ensures
        g as nat == gcd(a as nat, b as nat),
    decreases b,
{
    if b == 0 {
        a
    } else {
        gcd_u64(b, a % b)
    }
}

/// The angle denominator for a stream at `samplerate` Hz.
pub fn phase_denominator_u64(samplerate: u32) -> (den: u64)
    requires
        samplerate > 0,
    ensures
        den as int == phase_denominator(samplerate),
        den > 0,
{
    1000 * (samplerate as u64)
}

/// The per-sample phase step reduced into `[0, den)`.
fn phase_step_u64(shift_mhz: i64, den: u64) -> (m: u64)
    requires
        den > 0,
        shift_mhz > i64::MIN,
    ensures
        m as int == (shift_mhz as int) % (den as int),
        m < den,
{
    if shift_mhz >= 0 {
        (shift_mhz as u64) % den
    } else {
        let mag = (-shift_mhz) as u64;
        let t = mag % den;
        proof {
            lemma_fundamental_div_mod(mag as int, den as int);
            let q = mag as int / den as int;
            if t == 0 {
                assert(shift_mhz as int == (den as int) * (-q) + 0) by (nonlinear_arith)
                    requires
                        mag as int == (den as int) * q,
                        shift_mhz as int == -(mag as int),
                ;
                lemma_fundamental_div_mod_converse_mod(shift_mhz as int, den as int, -q, 0);
            } else {
                assert(shift_mhz as int == (den as int) * (-q - 1) + (den - t)) by (nonlinear_arith)
                    requires
                        mag as int == (den as int) * q + t,
                        shift_mhz as int == -(mag as int),
                ;
                lemma_fundamental_div_mod_converse_mod(
                    shift_mhz as int,
                    den as int,
                    -q - 1,
                    den - t,
                );
            }
        }
        if t == 0 {
            0
        } else {
            den - t
        }
    }
}

/// The rotation-angle numerator for the sample at global index `n`.
pub fn rotation_numer(shift_mhz: i64, samplerate: u32, n: u64) -> (r: u64)
    requires
        samplerate > 0,
        shift_mhz > i64::MIN,
    ensures
        r as int == rotation_numer_spec(shift_mhz, samplerate, n as int),
        (r as int) < phase_denominator(samplerate),
{
    let den = phase_denominator_u64(samplerate);
    let m = phase_step_u64(shift_mhz, den);
    proof {
        assert((m as int) * (n as int) <= 0xffff_ffff_ffffi64 * 0xffff_ffff_ffff_ffffu64)
            by (nonlinear_arith)
            requires
                0 <= m as int <= 0xffff_ffff_ffffi64,
                0 <= n as int <= 0xffff_ffff_ffff_ffffu64,
        ;
    }
    let prod: u128 = (m as u128) * (n as u128);
    let r = (prod % (den as u128)) as u64;
    proof {
        lemma_mod_bound(prod as int, den as int);
    }
    r
}

/// Advance the running sample index past one processed sample, resetting it
/// modulo the rotation period once it passes the threshold.
fn advance_index(shift_mhz: i64, samplerate: u32, n: u64) -> (r: u64)
    requires
        samplerate > 0,
        shift_mhz > i64::MIN,
        n < u64::MAX,
    ensures
        r as int == next_index(shift_mhz, samplerate, n as int),
        r as int <= vstd::math::max(INDEX_RESET_THRESHOLD as int, phase_denominator(samplerate)),
{
    let den = phase_denominator_u64(samplerate);
    let m = phase_step_u64(shift_mhz, den);
    let nxt = n + 1;
    if nxt > INDEX_RESET_THRESHOLD {
        let g = gcd_u64(m, den);
        proof {
            lemma_mod_bound(shift_mhz as int, den as int);
            lemma_gcd_divides(m as nat, den as nat);
            lemma_reset_period_bounds(shift_mhz, samplerate);
        }
        let p = den / g;
        let r = nxt % p;
        r
    } else {
        nxt
    }
}

/// Compute the mixer's rotation schedule for one chunk of `nsamples` samples
/// and advance the running sample index past them.
///
/// Entry `k` of the result is the rotation-angle numerator for sample `k` of
/// the chunk: that sample is to be multiplied by
/// `e^(-2*pi*i * numer / (1000 * samplerate))`. The index keeps advancing
/// across calls, so consecutive chunks compose into one phase-continuous
/// waveform even when the shift changes between chunks.
pub fn shift_frequency(
    nsamples: usize,
    samplenum: &mut u64,
    shift_mhz: i64,
    samplerate: u32,
) -> (rotations: Vec<u64>)
    requires
        samplerate > 0,
        shift_mhz > i64::MIN,
        *old(samplenum) < u64::MAX,
    ensures
        rotations@.len() == nsamples,
        forall|k: int|
            0 <= k < nsamples ==> rotations@[k] as int == rotation_schedule(
                shift_mhz,
                samplerate,
                *old(samplenum) as int,
                nsamples as nat,
            )[k],
        *final(samplenum) as int == index_after(
            shift_mhz,
            samplerate,
            *old(samplenum) as int,
            nsamples as nat,
        ),
{
    let ghost n0 = *samplenum as int;
    let mut rotations: Vec<u64> = Vec::new();
    let mut k: usize = 0;
    while k < nsamples
        invariant
            samplerate > 0,
            shift_mhz > i64::MIN,
            k <= nsamples,
            rotations@.len() == k,
            *samplenum as int == index_after(shift_mhz, samplerate, n0, k as nat),
            *samplenum < u64::MAX,
            forall|j: int|
                0 <= j < k ==> rotations@[j] as int == rotation_numer_spec(
                    shift_mhz,
                    samplerate,
                    index_after(shift_mhz, samplerate, n0, j as nat),
                ),
        decreases nsamples - k,
    {
        let cur = *samplenum;
        let r = rotation_numer(shift_mhz, samplerate, cur);
        rotations.push(r);
        let nxt = advance_index(shift_mhz, samplerate, cur);
        *samplenum = nxt;
        k = k + 1;
    }
    rotations
}

} // verus!
