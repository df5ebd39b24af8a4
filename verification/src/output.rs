//! Post-processing of synthesized audio: a change of rate, volume and pitch,
//! and a stretch of silence after the speech.

use vstd::prelude::*;
use crate::audio::Audio;
use crate::audio::AudioSamples;
use crate::audio::PiperAudioResult;
use crate::error::PiperError;
use crate::error::PiperResult;
use crate::model::SampleTransformer;

verus! {

/// How synthesized audio is to be post-processed. A knob that is unset
/// leaves its dimension as it is. Rate, volume and pitch are multipliers,
/// carried as the bit patterns of single-precision numbers.
#[derive(Debug, Clone, PartialEq, Eq)]
pub struct AudioOutputConfig {
    pub rate: Option<u32>,
    pub volume: Option<u32>,
    pub pitch: Option<u32>,
    pub appended_silence_ms: Option<u32>,
}

/// The number of samples in `time_ms` milliseconds at `sample_rate`.
pub open spec fn silence_len(time_ms: nat, sample_rate: nat) -> nat {
    time_ms * sample_rate / 1000
}

/// A buffer of silence that lasts `time_ms` milliseconds at `sample_rate`,
/// or nothing where the machine cannot count that many samples.
pub fn silent_samples(time_ms: usize, sample_rate: usize) -> (buffer: Option<AudioSamples>)
    ensures
        buffer is Some <==> silence_len(time_ms as nat, sample_rate as nat) <= usize::MAX,
        buffer matches Some(samples) ==> samples@ == crate::audio::silence(
            silence_len(time_ms as nat, sample_rate as nat),
        ),
{
    assert(time_ms * sample_rate <= u128::MAX) by (nonlinear_arith)
        requires
            time_ms <= u64::MAX,
            sample_rate <= u64::MAX,
    ;
    let count: u128 = (time_ms as u128) * (sample_rate as u128) / 1000;
    if count > usize::MAX as u128 {
        None
    } else {
        Some(AudioSamples::silent(count as usize))
    }
}

impl AudioOutputConfig {
    /// Whether any of rate, volume and pitch is set.
    pub open spec fn has_transform(&self) -> bool {
        self.rate is Some || self.volume is Some || self.pitch is Some
    }

    /// Whether any of rate, volume and pitch is set.
    pub fn transforms(&self) -> (set: bool)
        ensures
            set == self.has_transform(),
    {
        self.rate.is_some() || self.volume.is_some() || self.pitch.is_some()
    }

    /// What the transformer's output counts for: no sample at all, for an
    /// input that had some, means that the knobs cannot be applied.
    pub open spec fn judged(output: Seq<u32>) -> Result<Seq<u32>, PiperError> {
        if output.len() == 0 {
            Err(PiperError::TransformError)
        } else {
            Ok(output)
        }
    }

    /// Turns what the transformer returned for a non-empty input into the
    /// result of the transformation.
    pub fn judge(output: AudioSamples) -> (result: PiperResult<AudioSamples>)
        ensures
            crate::audio::samples_or_error(result) == Self::judged(output@),
            result matches Ok(samples) ==> samples == output,
    {
        if output.is_empty() {
            Err(PiperError::TransformError)
        } else {
            Ok(output)
        }
    }

    /// Relates `samples` to a result of `apply_to_raw_samples`: an empty
    /// buffer and a configuration without rate, volume and pitch leave the
    /// samples as they are; otherwise the result is what the transformer
    /// gave for exactly these samples, this format and these three knobs,
    /// judged. The silence setting has no part in it.
    pub open spec fn raw_outcome<T: SampleTransformer>(
        &self,
        transformer: &T,
        samples: Seq<u32>,
        sample_rate: usize,
        num_channels: usize,
        result: Result<Seq<u32>, PiperError>,
    ) -> bool {
        if samples.len() == 0 || !self.has_transform() {
            result == Ok::<Seq<u32>, PiperError>(samples)
        } else {
            exists|given: AudioSamples, returned: AudioSamples|
                {
                    &&& given@ == samples
                    &&& #[trigger] call_ensures(
                        T::transform,
                        (
                            transformer,
                            &given,
                            sample_rate,
                            num_channels,
                            self.rate,
                            self.volume,
                            self.pitch,
                        ),
                        returned,
                    )
                    &&& result == Self::judged(returned@)
                }
        }
    }

    /// The silence setting has no part in a transformation: two
    /// configurations with the same rate, volume and pitch relate the same
    /// samples to the same results, whatever silence each of them appends.
    pub proof fn lemma_silence_setting_does_not_transform<T: SampleTransformer>(
        &self,
        other: AudioOutputConfig,
        transformer: &T,
        samples: Seq<u32>,
        sample_rate: usize,
        num_channels: usize,
        result: Result<Seq<u32>, PiperError>,
    )
        requires
            self.rate == other.rate,
            self.volume == other.volume,
            self.pitch == other.pitch,
        ensures
            self.raw_outcome(transformer, samples, sample_rate, num_channels, result)
                == other.raw_outcome(transformer, samples, sample_rate, num_channels, result),
    {
    }

    /// Applies rate, volume and pitch to a buffer of samples.
    ///
    /// An empty buffer comes back empty and a configuration that sets none
    /// of the three returns the samples unchanged; in both cases the
    /// transformer is not run. Otherwise the transformer is run once on the
    /// samples, and the result is its output, or `TransformError` where it
    /// gave no sample.
    pub fn apply_to_raw_samples<T: SampleTransformer>(
        &self,
        transformer: &T,
        samples: AudioSamples,
        sample_rate: usize,
        num_channels: usize,
    ) -> (result: PiperResult<AudioSamples>)
        ensures
            samples@.len() == 0 ==> result == Ok::<AudioSamples, PiperError>(samples),
            !self.has_transform() ==> result == Ok::<AudioSamples, PiperError>(samples),
            self.raw_outcome(
                transformer,
                samples@,
                sample_rate,
                num_channels,
                crate::audio::samples_or_error(result),
            ),
    {
        if samples.is_empty() || !self.transforms() {
            return Ok(samples);
        }
        let returned = transformer.transform(
            &samples,
            sample_rate,
            num_channels,
            self.rate,
            self.volume,
            self.pitch,
        );
        Self::judge(returned)
    }

    /// Relates a duration to a result of `generate_silence`.
    pub open spec fn silence_outcome<T: SampleTransformer>(
        &self,
        transformer: &T,
        time_ms: usize,
        sample_rate: usize,
        num_channels: usize,
        result: Result<Seq<u32>, PiperError>,
    ) -> bool {
        let count = silence_len(time_ms as nat, sample_rate as nat);
        if count > usize::MAX {
            result == Err::<Seq<u32>, PiperError>(PiperError::TransformError)
        } else {
            self.raw_outcome(
                transformer,
                crate::audio::silence(count),
                sample_rate,
                num_channels,
                result,
            )
        }
    }

    /// Silence of `time_ms` milliseconds, shaped like speech: the zero
    /// samples go through `apply_to_raw_samples`, so that a configured rate
    /// stretches the pause together with the speech around it.
    ///
    /// A duration of more samples than the machine can count is a
    /// `TransformError`.
    pub fn generate_silence<T: SampleTransformer>(
        &self,
        transformer: &T,
        time_ms: usize,
        sample_rate: usize,
        num_channels: usize,
    ) -> (result: PiperResult<AudioSamples>)
        ensures
            self.silence_outcome(
                transformer,
                time_ms,
                sample_rate,
                num_channels,
                crate::audio::samples_or_error(result),
            ),
    {
        match silent_samples(time_ms, sample_rate) {
            Some(samples) => self.apply_to_raw_samples(
                transformer,
                samples,
                sample_rate,
                num_channels,
            ),
            None => Err(PiperError::TransformError),
        }
    }

    /// The samples of `audio` followed by the configured silence, as `apply`
    /// hands them on for transformation.
    pub open spec fn staged(&self, audio: Audio) -> Seq<u32> {
        match self.appended_silence_ms {
            Some(time_ms) => audio.samples@ + crate::audio::silence(
                silence_len(time_ms as nat, audio.info.sample_rate as nat),
            ),
            None => audio.samples@,
        }
    }

    /// Whether the machine can count the samples of the configured silence
    /// at `sample_rate`.
    pub open spec fn silence_fits(&self, sample_rate: usize) -> bool {
        self.appended_silence_ms matches Some(time_ms) ==> silence_len(
            time_ms as nat,
            sample_rate as nat,
        ) <= usize::MAX
    }

    /// Relates `audio` to a result of `apply`.
    pub open spec fn applied<T: SampleTransformer>(
        &self,
        transformer: &T,
        audio: Audio,
        result: PiperAudioResult,
    ) -> bool {
        if !self.silence_fits(audio.info.sample_rate) {
            result == Err::<Audio, PiperError>(PiperError::TransformError)
        } else {
            &&& result matches Ok(processed) ==> processed.info == audio.info
            &&& self.raw_outcome(
                transformer,
                self.staged(audio),
                audio.info.sample_rate,
                audio.info.num_channels,
                crate::audio::audio_samples_or_error(result),
            )
        }
    }

    /// Post-processes one piece of audio.
    ///
    /// Where a trailing silence is configured, that many zero samples are
    /// put behind the speech first. The whole buffer then goes through
    /// `apply_to_raw_samples` once, and what comes out replaces the samples
    /// of `audio`; the format stays as it was. A silence of more samples
    /// than the machine can count is a `TransformError`.
    pub fn apply<T: SampleTransformer>(&self, transformer: &T, audio: Audio) -> (result:
        PiperAudioResult)
        ensures
            self.applied(transformer, audio, result),
    {
        let Audio { samples, info } = audio;
        let mut staged = samples;
        if let Some(time_ms) = self.appended_silence_ms {
            match silent_samples(time_ms as usize, info.sample_rate) {
                Some(pause) => staged.append(pause),
                None => return Err(PiperError::TransformError),
            }
        }
        match self.apply_to_raw_samples(transformer, staged, info.sample_rate, info.num_channels) {
            Ok(processed) => Ok(Audio { samples: processed, info }),
            Err(error) => Err(error),
        }
    }
}

} // verus!
