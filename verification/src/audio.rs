//! Sample buffers and the format metadata that turns them into audio.
//!
//! A sample is carried as the 32-bit pattern of an IEEE 754 single-precision
//! number. The pipeline never does arithmetic on samples: it counts them,
//! concatenates them and hands them to its collaborators, so the bit pattern
//! is all it needs. The pattern `0` is the sample of value zero.

use vstd::prelude::*;
use crate::error::PiperError;

verus! {

/// The bit pattern of a sample of value zero.
pub const SILENT_SAMPLE: u32 = 0;

/// `count` samples of value zero.
pub open spec fn silence(count: nat) -> Seq<u32> {
    Seq::new(count, |i: int| SILENT_SAMPLE)
}

/// An ordered sequence of samples. The empty buffer is valid and means
/// "no audio".
#[derive(Debug, Clone, PartialEq, Eq)]
pub struct AudioSamples {
    samples: Vec<u32>,
}

impl View for AudioSamples {
    type V = Seq<u32>;

    closed spec fn view(&self) -> Seq<u32> {
        self.samples@
    }
}

impl AudioSamples {
    /// Wraps a vector of sample bit patterns.
    pub fn new(samples: Vec<u32>) -> (buffer: AudioSamples)
        ensures
            buffer@ == samples@,
    {
        AudioSamples { samples }
    }

    /// A buffer of `count` samples of value zero.
    pub fn silent(count: usize) -> (buffer: AudioSamples)
        ensures
            buffer@ == silence(count as nat),
    {
        let samples = vec![SILENT_SAMPLE; count];
        assert(samples@ =~= silence(count as nat));
        AudioSamples { samples }
    }

    /// Unwraps the buffer into its vector of sample bit patterns.
    pub fn into_vec(self) -> (samples: Vec<u32>)
        ensures
            samples@ == self@,
    {
        self.samples
    }

    /// The number of samples in the buffer.
    pub fn len(&self) -> (count: usize)
        ensures
            count == self@.len(),
    {
        self.samples.len()
    }

    /// Whether the buffer holds no sample.
    pub fn is_empty(&self) -> (empty: bool)
        ensures
            empty == (self@.len() == 0),
    {
        self.samples.len() == 0
    }

    /// Moves every sample of `other` to the end of this buffer.
    pub fn append(&mut self, other: AudioSamples)
        ensures
            final(self)@ == old(self)@ + other@,
    {
        let mut tail = other.samples;
        self.samples.append(&mut tail);
    }
}

/// The format of a stream of samples.
#[derive(Debug, Clone, Copy, PartialEq, Eq, Structural)]
pub struct AudioInfo {
    /// Samples per second and channel.
    pub sample_rate: usize,
    /// Number of interleaved channels.
    pub num_channels: usize,
    /// Bytes per sample in the encoded output.
    pub sample_width: usize,
}

/// A sample buffer together with its format.
#[derive(Debug, Clone, PartialEq, Eq)]
pub struct Audio {
    pub samples: AudioSamples,
    pub info: AudioInfo,
}

impl Audio {
    /// Pairs a sample buffer with its format.
    pub fn new(samples: AudioSamples, info: AudioInfo) -> (audio: Audio)
        ensures
            audio.samples == samples,
            audio.info == info,
    {
        Audio { samples, info }
    }
}

pub type PiperAudioResult = Result<Audio, PiperError>;

/// A result over a piece of audio, with the audio replaced by its samples
/// and its format.
pub open spec fn audio_or_error(result: PiperAudioResult) -> Result<
    (Seq<u32>, AudioInfo),
    PiperError,
> {
    match result {
        Ok(audio) => Ok((audio.samples@, audio.info)),
        Err(error) => Err(error),
    }
}

/// A result over a piece of audio, with the audio replaced by its samples.
pub open spec fn audio_samples_or_error(result: PiperAudioResult) -> Result<
    Seq<u32>,
    PiperError,
> {
    match result {
        Ok(audio) => Ok(audio.samples@),
        Err(error) => Err(error),
    }
}

/// A result over a sample buffer, with the buffer replaced by its samples.
pub open spec fn samples_or_error(result: Result<AudioSamples, PiperError>) -> Result<
    Seq<u32>,
    PiperError,
> {
    match result {
        Ok(samples) => Ok(samples@),
        Err(error) => Err(error),
    }
}

} // verus!
