//! Streaming Loop: chunked processing over an unbounded input stream.
//!
//! The loop reads up to [`BUFFER_SIZE`] bytes per cycle, decodes them,
//! obtains the current shift command, pairs every sample with its rotation
//! angle, and hands the prepared chunk to the caller to rotate, encode and
//! write. A read shorter than [`BUFFER_SIZE`] is the end-of-stream signal:
//! the short chunk is still processed (as long as it is sample-aligned), and
//! the loop then terminates. A chunk that is not a whole number of samples is
//! rejected as malformed.
//!
//! The running sample index is owned by the loop and passed explicitly into
//! each chunk step, so phase continuity across chunks is visible in the
//! contracts rather than hidden in shared state.

use crate::dsp::{
    decode_f32_spec, decode_i16_spec, convert_iqf32_to_complex, convert_iqi16_to_complex,
    lemma_decode_f32_concat, lemma_decode_i16_concat, Complex, MalformedChunk,
};
use crate::mixer::{
    index_after, lemma_schedule_chunk_split, phase_denominator, phase_denominator_u64,
    rotation_schedule, shift_frequency,
};
use crate::usage::DataType;
use vstd::prelude::*;

verus! {

/// Nominal chunk size in bytes; a shorter read signals end-of-stream.
pub const BUFFER_SIZE: usize = 8192;

/// The two states of the streaming loop.
#[derive(Clone, Copy, Debug, PartialEq, Eq, Structural)]
pub enum LoopState {
    Running,
    Terminated,
}

/// The state transition after a read: the loop terminates exactly when fewer
/// bytes than the nominal chunk size were read, after that chunk has been
/// processed and flushed.
pub fn next_loop_state(bytes_read: usize) -> (s: LoopState)
    ensures
        s == LoopState::Terminated <==> bytes_read < BUFFER_SIZE,
        s == LoopState::Running <==> bytes_read >= BUFFER_SIZE,
{
    if bytes_read < BUFFER_SIZE {
        LoopState::Terminated
    } else {
        LoopState::Running
    }
}

/// The decoded samples of one chunk, in the exact representation of the
/// stream's input format.
pub enum SampleBuf {
    /// Fixed-point samples: `i16` components.
    I16(Vec<Complex<i16>>),
    /// Floating-point samples: raw 32-bit little-endian bit patterns.
    F32(Vec<Complex<u32>>),
}

impl SampleBuf {
    /// How many samples the buffer holds.
    pub open spec fn len_spec(self) -> int {
        match self {
            SampleBuf::I16(v) => v@.len() as int,
            SampleBuf::F32(v) => v@.len() as int,
        }
    }

    /// How many samples the buffer holds.
    pub fn len(&self) -> (n: usize)
        ensures
            n == self.len_spec(),
    {
        match self {
            SampleBuf::I16(v) => v.len(),
            SampleBuf::F32(v) => v.len(),
        }
    }
}

/// One chunk, decoded and paired with its rotation schedule: sample `k` of
/// `samples` is to be multiplied by `e^(-2*pi*i * rotations[k]/denominator)`
/// and then encoded in the output format.
pub struct PreparedChunk {
    pub samples: SampleBuf,
    pub rotations: Vec<u64>,
    pub denominator: u64,
}

/// What processing a fixed-point chunk means, sample by sample: each decoded
/// sample paired with its rotation-angle numerator, starting from running
/// index `n`.
pub open spec fn chunk_pairs_i16(
    bytes: Seq<u8>,
    shift_mhz: i64,
    samplerate: u32,
    n: int,
) -> Seq<(Complex<i16>, int)> {
    Seq::new(
        bytes.len() / 4,
        |k: int|
            (
                decode_i16_spec(bytes)[k],
                rotation_schedule(shift_mhz, samplerate, n, (bytes.len() / 4) as nat)[k],
            ),
    )
}

/// What processing a floating-point chunk means, sample by sample.
pub open spec fn chunk_pairs_f32(
    bytes: Seq<u8>,
    shift_mhz: i64,
    samplerate: u32,
    n: int,
) -> Seq<(Complex<u32>, int)> {
    Seq::new(
        bytes.len() / 8,
        |k: int|
            (
                decode_f32_spec(bytes)[k],
                rotation_schedule(shift_mhz, samplerate, n, (bytes.len() / 8) as nat)[k],
            ),
    )
}

/// Phase continuity across chunk boundaries, for the fixed-point format:
/// processing a byte stream in one chunk produces exactly the same
/// sample-and-angle sequence as processing it split into two chunks at any
/// sample-aligned point, the second chunk resuming from the index the first
/// ends with.
pub proof fn lemma_split_chunk_processing_i16(
    b1: Seq<u8>,
    b2: Seq<u8>,
    shift_mhz: i64,
    samplerate: u32,
    n: int,
)
    requires
        b1.len() % 4 == 0,
    ensures
        chunk_pairs_i16(b1 + b2, shift_mhz, samplerate, n) == chunk_pairs_i16(
            b1,
            shift_mhz,
            samplerate,
            n,
        ) + chunk_pairs_i16(
            b2,
            shift_mhz,
            samplerate,
            index_after(shift_mhz, samplerate, n, (b1.len() / 4) as nat),
        ),
{
    let n1 = (b1.len() / 4) as nat;
    let n2 = (b2.len() / 4) as nat;
    lemma_decode_i16_concat(b1, b2);
    assert((b1 + b2).len() / 4 == n1 + n2) by {
        assert(decode_i16_spec(b1 + b2).len() == decode_i16_spec(b1).len() + decode_i16_spec(
            b2,
        ).len());
    }
    lemma_schedule_chunk_split(shift_mhz, samplerate, n, n1, n2);
    let n_mid = index_after(shift_mhz, samplerate, n, n1);
    let whole = chunk_pairs_i16(b1 + b2, shift_mhz, samplerate, n);
    let first = chunk_pairs_i16(b1, shift_mhz, samplerate, n);
    let rest = chunk_pairs_i16(b2, shift_mhz, samplerate, n_mid);
    assert forall|k: int| 0 <= k < n1 + n2 implies whole[k] == (first + rest)[k] by {
        assert(rotation_schedule(shift_mhz, samplerate, n, (n1 + n2) as nat)[k]
            == (rotation_schedule(shift_mhz, samplerate, n, n1) + rotation_schedule(
            shift_mhz,
            samplerate,
            n_mid,
            n2,
        ))[k]);
    }
    assert(whole =~= first + rest);
}

/// Phase continuity across chunk boundaries, for the floating-point format.
pub proof fn lemma_split_chunk_processing_f32(
    b1: Seq<u8>,
    b2: Seq<u8>,
    shift_mhz: i64,
    samplerate: u32,
    n: int,
)
    requires
        b1.len() % 8 == 0,
    ensures
        chunk_pairs_f32(b1 + b2, shift_mhz, samplerate, n) == chunk_pairs_f32(
            b1,
            shift_mhz,
            samplerate,
            n,
        ) + chunk_pairs_f32(
            b2,
            shift_mhz,
            samplerate,
            index_after(shift_mhz, samplerate, n, (b1.len() / 8) as nat),
        ),
{
    let n1 = (b1.len() / 8) as nat;
    let n2 = (b2.len() / 8) as nat;
    lemma_decode_f32_concat(b1, b2);
    assert((b1 + b2).len() / 8 == n1 + n2) by {
        assert(decode_f32_spec(b1 + b2).len() == decode_f32_spec(b1).len() + decode_f32_spec(
            b2,
        ).len());
    }
    lemma_schedule_chunk_split(shift_mhz, samplerate, n, n1, n2);
    let n_mid = index_after(shift_mhz, samplerate, n, n1);
    let whole = chunk_pairs_f32(b1 + b2, shift_mhz, samplerate, n);
    let first = chunk_pairs_f32(b1, shift_mhz, samplerate, n);
    let rest = chunk_pairs_f32(b2, shift_mhz, samplerate, n_mid);
    assert forall|k: int| 0 <= k < n1 + n2 implies whole[k] == (first + rest)[k] by {
        assert(rotation_schedule(shift_mhz, samplerate, n, (n1 + n2) as nat)[k]
            == (rotation_schedule(shift_mhz, samplerate, n, n1) + rotation_schedule(
            shift_mhz,
            samplerate,
            n_mid,
            n2,
        ))[k]);
    }
    assert(whole =~= first + rest);
}

/// Decode one wire chunk and compute the rotation angle of every sample in
/// it, advancing the running sample index past the chunk.
///
/// Fails, leaving the index untouched, exactly when the chunk is not a whole
/// number of samples in the input format.
pub fn prepare_chunk(
    inbuf: &[u8],
    intype: DataType,
    samplenum: &mut u64,
    shift_mhz: i64,
    samplerate: u32,
) -> (r: Result<PreparedChunk, MalformedChunk>)
    requires
        samplerate > 0,
        shift_mhz > i64::MIN,
        *old(samplenum) < u64::MAX,
    ensures
        r is Ok <==> inbuf@.len() as int % intype.sample_width_spec() == 0,
        r is Err ==> *final(samplenum) == *old(samplenum),
        r matches Ok(p) ==> {
            let nsamples = inbuf@.len() as int / intype.sample_width_spec();
            &&& match p.samples {
                SampleBuf::I16(v) => intype == DataType::I16 && v@ == decode_i16_spec(inbuf@),
                SampleBuf::F32(v) => intype == DataType::F32 && v@ == decode_f32_spec(inbuf@),
            }
            &&& p.samples.len_spec() == nsamples
            &&& p.rotations@.len() == nsamples
            &&& forall|k: int|
                0 <= k < nsamples ==> p.rotations@[k] as int == rotation_schedule(
                    shift_mhz,
                    samplerate,
                    *old(samplenum) as int,
                    nsamples as nat,
                )[k]
            &&& p.denominator as int == phase_denominator(samplerate)
            &&& *final(samplenum) as int == index_after(
                shift_mhz,
                samplerate,
                *old(samplenum) as int,
                nsamples as nat,
            )
        },
{
    match intype {
        DataType::I16 => {
            let samples = match convert_iqi16_to_complex(inbuf) {
                Ok(v) => v,
                Err(e) => {
                    return Err(e);
                },
            };
            let nsamples = samples.len();
            let rotations = shift_frequency(nsamples, samplenum, shift_mhz, samplerate);
            let denominator = phase_denominator_u64(samplerate);
            Ok(PreparedChunk { samples: SampleBuf::I16(samples), rotations, denominator })
        },
        DataType::F32 => {
            let samples = match convert_iqf32_to_complex(inbuf) {
                Ok(v) => v,
                Err(e) => {
                    return Err(e);
                },
            };
            let nsamples = samples.len();
            let rotations = shift_frequency(nsamples, samplenum, shift_mhz, samplerate);
            let denominator = phase_denominator_u64(samplerate);
            Ok(PreparedChunk { samples: SampleBuf::F32(samples), rotations, denominator })
        },
    }
}

} // verus!
