//! The spectral capture pipeline, as far as it is arithmetic: how many
//! magnitudes a snapshot holds, and that every snapshot of one pipeline holds
//! exactly that many.
//!
//! The host owns the capture stream and the analysis node. Each frame it
//! fills a blank buffer from the node and hands it over as a snapshot.

use vstd::prelude::*;

verus! {

/// The highest frequency, in hertz, that a snapshot covers.
pub const MAX_FREQUENCY: u32 = 20000;

/// The number of magnitudes in a snapshot. The analysis node yields half as
/// many bins as its transform is long; of these the snapshot keeps the share
/// that `MAX_FREQUENCY` is of the sample rate, rounded down.
pub open spec fn spec_snapshot_len(sample_rate: u32, fft_size: u32) -> int {
    MAX_FREQUENCY * (fft_size / 2) / (sample_rate as int)
}

/// The number of magnitudes in a snapshot, for a sample rate in hertz and a
/// transform size in samples. There is none for a sample rate of zero, nor
/// where the number is beyond what a buffer can hold.
pub fn snapshot_len(sample_rate: u32, fft_size: u32) -> (len: Option<usize>)
    ensures
        len is Some <==> sample_rate > 0 && spec_snapshot_len(sample_rate, fft_size) <= usize::MAX,
        len is Some ==> len->0 == spec_snapshot_len(sample_rate, fft_size),
{
    if sample_rate == 0 {
        return None;
    }
    let bins: u64 = (fft_size / 2) as u64;
    assert(MAX_FREQUENCY * bins <= 20000 * 0x7fff_ffff) by (nonlinear_arith)
        requires
            MAX_FREQUENCY == 20000,
            bins <= 0x7fff_ffff,
    ;
    let span: u64 = MAX_FREQUENCY as u64 * bins;
    let len: u64 = span / sample_rate as u64;
    if len > usize::MAX as u64 {
        None
    } else {
        Some(len as usize)
    }
}

/// The fixed shape of the snapshots of one capture pipeline.
#[derive(Clone, Copy, Debug, PartialEq, Eq, Structural)]
pub struct SpectralPipeline {
    len: usize,
}

/// The magnitudes of one analysis window, lowest frequency first.
#[derive(Debug, PartialEq, Eq)]
pub struct SpectralSnapshot {
    magnitudes: Vec<u8>,
}

impl View for SpectralSnapshot {
    type V = Seq<u8>;

    closed spec fn view(&self) -> Seq<u8> {
        self.magnitudes@
    }
}

impl SpectralPipeline {
    /// The number of magnitudes in each snapshot of this pipeline.
    pub closed spec fn spec_len(&self) -> usize {
        self.len
    }

    /// A pipeline for the given sample rate and transform size, under the
    /// conditions of `snapshot_len`.
    pub fn new(sample_rate: u32, fft_size: u32) -> (pipeline: Option<SpectralPipeline>)
        ensures
            pipeline is Some <==> sample_rate > 0 && spec_snapshot_len(sample_rate, fft_size)
                <= usize::MAX,
            pipeline is Some ==> pipeline->0.spec_len() == spec_snapshot_len(
                sample_rate,
                fft_size,
            ),
    {
        match snapshot_len(sample_rate, fft_size) {
            Some(len) => Some(SpectralPipeline { len }),
            None => None,
        }
    }

    /// The number of magnitudes in each snapshot of this pipeline.
    #[verifier::when_used_as_spec(spec_len)]
    pub fn len(&self) -> (len: usize)
        ensures
            len == self.spec_len(),
    {
        self.len
    }

    /// A buffer of the pipeline's length, all zero, for the analysis node to
    /// fill.
    pub fn blank(&self) -> (buffer: Vec<u8>)
        ensures
            buffer@ == Seq::new(self.spec_len() as nat, |i: int| 0u8),
    {
        let mut buffer: Vec<u8> = Vec::new();
        let mut filled: usize = 0;
        while filled < self.len
            invariant
                filled <= self.len,
                buffer@ == Seq::new(filled as nat, |i: int| 0u8),
            decreases self.len - filled,
        {
            buffer.push(0);
            filled = filled + 1;
            assert(buffer@ =~= Seq::new(filled as nat, |i: int| 0u8));
        }
        buffer
    }

    /// Whether a buffer has the pipeline's length.
    pub fn fits(&self, buffer: &Vec<u8>) -> (fits: bool)
        ensures
            fits == (buffer@.len() == self.spec_len()),
    {
        buffer.len() == self.len
    }

    /// Takes a filled buffer as the snapshot of the current frame. A buffer of
    /// another length than the pipeline's is a fault of the caller.
    pub fn snapshot(&self, buffer: Vec<u8>) -> (snapshot: SpectralSnapshot)
        requires
            buffer@.len() == self.spec_len(),
        ensures
            snapshot@ == buffer@,
    {
        SpectralSnapshot { magnitudes: buffer }
    }
}

impl SpectralSnapshot {
    /// The number of magnitudes.
    pub fn len(&self) -> (len: usize)
        ensures
            len == self@.len(),
    {
        self.magnitudes.len()
    }

    /// The magnitude at position `i`.
    pub fn magnitude(&self, i: usize) -> (magnitude: u8)
        requires
            i < self@.len(),
        ensures
            magnitude == self@[i as int],
    {
        self.magnitudes[i]
    }

    /// The magnitudes, lowest frequency first.
    pub fn magnitudes(&self) -> (magnitudes: &Vec<u8>)
        ensures
            magnitudes@ == self@,
    {
        &self.magnitudes
    }
}

} // verus!
