//! The two collaborators of the pipeline: the speech model, which turns text
//! into pronunciation units and units into samples, and the sample
//! transformer, which changes the rate, volume and pitch of a buffer.
//!
//! Neither trait promises anything of what an implementation returns, so
//! every function of this crate is verified for all implementations. Where a
//! contract has to name what a collaborator returned, it does so through the
//! method's own postcondition, `call_ensures`.

use vstd::prelude::*;
use std::collections::HashMap;
use crate::audio::Audio;
use crate::audio::AudioInfo;
use crate::audio::AudioSamples;
use crate::audio::PiperAudioResult;
use crate::error::PiperError;
use crate::error::PiperResult;

verus! {

/// A speech model. One model is shared by every task that is synthesizing
/// with it, possibly from several threads at once.
pub trait PiperModel {
    /// The chunks of one unit's audio, produced as the model gets to them.
    type Stream;

    /// The format of the audio that the model produces.
    fn audio_output_info(&self) -> AudioInfo;

    /// Splits `text` into pronunciation units, one per sentence, in order.
    fn phonemize_text(&self, text: &str) -> PiperResult<Vec<String>>;

    /// Synthesizes several pronunciation units at once.
    fn speak_batch(&self, phoneme_batches: Vec<String>) -> PiperResult<Vec<Audio>>;

    /// Synthesizes one pronunciation unit.
    fn speak_one_sentence(&self, phonemes: String) -> PiperAudioResult;

    /// The language that the model speaks, where it knows it.
    fn get_language(&self) -> PiperResult<Option<String>>;

    /// The speakers that the model offers, by their identifiers.
    fn get_speakers(&self) -> PiperResult<Option<&HashMap<i64, String>>>;

    /// Selects the speaker for what is synthesized from now on.
    fn set_speaker(&self, sid: i64) -> Option<PiperError>;

    /// Whatever else the model has to say about itself.
    fn properties(&self) -> PiperResult<HashMap<String, String>>;

    /// Whether `stream_synthesis` is available.
    fn supports_streaming_output(&self) -> bool;

    /// Starts synthesizing one pronunciation unit in chunks of about
    /// `chunk_size` frames, each padded by `chunk_padding` frames.
    fn stream_synthesis(
        &self,
        phonemes: String,
        chunk_size: usize,
        chunk_padding: usize,
    ) -> PiperResult<Self::Stream>;
}

/// A sample transformer: it plays `samples` at the rate, volume and pitch
/// that are set and returns all the samples that come out. The three are
/// multipliers, carried as the bit patterns of single-precision numbers;
/// one that is unset leaves its dimension as it is. A call stands for one
/// whole use of the transformer, from acquiring it to releasing it.
pub trait SampleTransformer {
    fn transform(
        &self,
        samples: &AudioSamples,
        sample_rate: usize,
        num_channels: usize,
        rate: Option<u32>,
        volume: Option<u32>,
        pitch: Option<u32>,
    ) -> AudioSamples
        requires
            samples@.len() > 0,
            rate is Some || volume is Some || pitch is Some,
    ;
}

} // verus!
