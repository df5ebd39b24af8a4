//! One synthesis request: a model, a text and the way its audio is to be
//! post-processed.

use vstd::prelude::*;
use std::sync::Arc;
use crate::audio::Audio;
use crate::audio::AudioSamples;
use crate::audio::PiperAudioResult;
use crate::error::PiperError;
use crate::error::PiperResult;
use crate::model::PiperModel;
use crate::model::SampleTransformer;
use crate::output::AudioOutputConfig;
use crate::queue::queue_of;

verus! {

/// Pronunciation units as texts.
pub open spec fn unit_texts(units: Seq<String>) -> Seq<Seq<char>> {
    units.map_values(|unit: String| unit@)
}

/// A result over pronunciation units, with the units replaced by their
/// texts.
pub open spec fn units_or_error(result: PiperResult<Vec<String>>) -> Result<
    Seq<Seq<char>>,
    PiperError,
> {
    match result {
        Ok(units) => Ok(unit_texts(units@)),
        Err(error) => Err(error),
    }
}

/// Turns the text of one request into pronunciation units and each unit
/// into audio. The model and the transformer are shared with every other
/// provider of the same synthesizer.
pub struct SpeechSynthesisTaskProvider<M: PiperModel, T: SampleTransformer> {
    pub model: Arc<M>,
    pub transformer: Arc<T>,
    pub text: String,
    pub output_config: Option<AudioOutputConfig>,
}

impl<M: PiperModel, T: SampleTransformer> SpeechSynthesisTaskProvider<M, T> {
    /// `units` is something that the model may answer when it is asked for
    /// the pronunciation units of the provider's text.
    pub open spec fn units_outcome(&self, units: PiperResult<Vec<String>>) -> bool {
        exists|text: &str|
            text@ == self.text@ && #[trigger] call_ensures(
                M::phonemize_text,
                (&*self.model, text),
                units,
            )
    }

    /// Asks the model, once, for the pronunciation units of the text. A
    /// failure of the model is handed on as it is.
    pub fn get_phonemes(&self) -> (units: PiperResult<Vec<String>>)
        ensures
            self.units_outcome(units),
    {
        self.model.phonemize_text(self.text.as_str())
    }

    /// Relates what the model said for one unit to the audio that is
    /// delivered for it: the model's error as it is, the model's audio as
    /// it is where no post-processing is configured, and else what `apply`
    /// makes of the model's audio.
    pub open spec fn post_processed(
        &self,
        spoken: PiperAudioResult,
        delivered: PiperAudioResult,
    ) -> bool {
        match (spoken, self.output_config) {
            (Ok(audio), Some(config)) => config.applied(&*self.transformer, audio, delivered),
            _ => delivered == spoken,
        }
    }

    /// Post-processes what the model said for one unit.
    pub fn post_process(&self, spoken: PiperAudioResult) -> (delivered: PiperAudioResult)
        ensures
            self.post_processed(spoken, delivered),
    {
        match spoken {
            Ok(audio) => match &self.output_config {
                Some(config) => config.apply(&*self.transformer, audio),
                None => Ok(audio),
            },
            Err(error) => Err(error),
        }
    }

    /// `delivered` is audio that the provider may deliver for `phonemes`: what
    /// the model said for exactly that unit, post-processed.
    pub open spec fn unit_outcome(&self, phonemes: String, delivered: PiperAudioResult) -> bool {
        exists|spoken: PiperAudioResult|
            {
                &&& #[trigger] call_ensures(
                    M::speak_one_sentence,
                    (&*self.model, phonemes),
                    spoken,
                )
                &&& self.post_processed(spoken, delivered)
            }
    }

    /// Synthesizes one pronunciation unit and post-processes its audio.
    pub fn process_one_sentence(&self, phonemes: String) -> (delivered: PiperAudioResult)
        ensures
            self.unit_outcome(phonemes, delivered),
    {
        let spoken = self.model.speak_one_sentence(phonemes);
        self.post_process(spoken)
    }

    /// Relates a batch of the model's audio to the batch that `apply` makes
    /// of it under `config`: every piece processed, in order, or the error
    /// of the first piece that could not be.
    pub open spec fn batch_applied(
        &self,
        config: AudioOutputConfig,
        spoken: Seq<Audio>,
        delivered: PiperResult<Vec<Audio>>,
    ) -> bool {
        match delivered {
            Ok(processed) => {
                &&& processed@.len() == spoken.len()
                &&& forall|i: int|
                    0 <= i < spoken.len() ==> config.applied(
                        &*self.transformer,
                        spoken[i],
                        Ok(#[trigger] processed@[i]),
                    )
            },
            Err(error) => exists|done: Seq<Audio>|
                {
                    &&& done.len() < spoken.len()
                    &&& forall|i: int|
                        0 <= i < done.len() ==> config.applied(
                            &*self.transformer,
                            spoken[i],
                            Ok(#[trigger] done[i]),
                        )
                    &&& #[trigger] config.applied(
                        &*self.transformer,
                        spoken[done.len() as int],
                        Err(error),
                    )
                },
        }
    }

    /// Relates what the model said for a batch to what is delivered for it.
    pub open spec fn batch_post_processed(
        &self,
        spoken: PiperResult<Vec<Audio>>,
        delivered: PiperResult<Vec<Audio>>,
    ) -> bool {
        match (spoken, self.output_config) {
            (Ok(batch), Some(config)) => self.batch_applied(config, batch@, delivered),
            _ => delivered == spoken,
        }
    }

    /// Post-processes what the model said for a batch of units, piece by
    /// piece and in order. The first piece that cannot be processed ends
    /// the batch with its error.
    pub fn post_process_batch(&self, spoken: PiperResult<Vec<Audio>>) -> (delivered: PiperResult<
        Vec<Audio>,
    >)
        ensures
            self.batch_post_processed(spoken, delivered),
    {
        let batch = match spoken {
            Ok(batch) => batch,
            Err(error) => return Err(error),
        };
        let config = match &self.output_config {
            Some(config) => config,
            None => return Ok(batch),
        };
        let ghost all = batch@;
        let mut waiting = queue_of(batch);
        let mut processed: Vec<Audio> = Vec::new();
        while waiting.len() > 0
            invariant
                spoken matches Ok(batch) && batch@ == all,
                self.output_config == Some(*config),
                processed@.len() + waiting@.len() == all.len(),
                forall|i: int|
                    0 <= i < waiting@.len() ==> waiting@[i] == all[processed@.len() + i],
                forall|i: int|
                    0 <= i < processed@.len() ==> config.applied(
                        &*self.transformer,
                        all[i],
                        Ok(#[trigger] processed@[i]),
                    ),
            decreases waiting@.len(),
        {
            if let Some(audio) = waiting.pop_front() {
                match config.apply(&*self.transformer, audio) {
                    Ok(piece) => processed.push(piece),
                    Err(error) => {
                        assert(config.applied(
                            &*self.transformer,
                            all[processed@.len() as int],
                            Err(error),
                        ));
                        return Err(error);
                    },
                }
            }
        }
        Ok(processed)
    }

    /// `delivered` is a batch that the provider may deliver for the units
    /// `phonemes`: what the model said for exactly them, post-processed.
    pub open spec fn batch_outcome(
        &self,
        phonemes: Vec<String>,
        delivered: PiperResult<Vec<Audio>>,
    ) -> bool {
        exists|spoken: PiperResult<Vec<Audio>>|
            {
                &&& #[trigger] call_ensures(M::speak_batch, (&*self.model, phonemes), spoken)
                &&& self.batch_post_processed(spoken, delivered)
            }
    }

    /// Synthesizes a batch of pronunciation units in one call of the model
    /// and post-processes the audio of each.
    pub fn process_batches(&self, phonemes: Vec<String>) -> (delivered: PiperResult<Vec<Audio>>)
        ensures
            self.batch_outcome(phonemes, delivered),
    {
        let spoken = self.model.speak_batch(phonemes);
        self.post_process_batch(spoken)
    }

    /// The model and the transformer of this provider answer every question
    /// in one way only: the same text gives the same units, the same unit
    /// the same audio, and the same samples under the same knobs the same
    /// output.
    pub open spec fn deterministic(&self) -> bool {
        &&& forall|text: &str, other: &str, a: PiperResult<Vec<String>>, b: PiperResult<Vec<String>>|
            #![trigger call_ensures(M::phonemize_text, (&*self.model, text), a),
                call_ensures(M::phonemize_text, (&*self.model, other), b)]
            {
                &&& text@ == other@
                &&& call_ensures(M::phonemize_text, (&*self.model, text), a)
                &&& call_ensures(M::phonemize_text, (&*self.model, other), b)
            } ==> units_or_error(a) == units_or_error(b)
        &&& forall|unit: String, other: String, a: PiperAudioResult, b: PiperAudioResult|
            #![trigger call_ensures(M::speak_one_sentence, (&*self.model, unit), a),
                call_ensures(M::speak_one_sentence, (&*self.model, other), b)]
            {
                &&& unit@ == other@
                &&& call_ensures(M::speak_one_sentence, (&*self.model, unit), a)
                &&& call_ensures(M::speak_one_sentence, (&*self.model, other), b)
            } ==> crate::audio::audio_or_error(a) == crate::audio::audio_or_error(b)
        &&& forall|
            given: AudioSamples,
            other: AudioSamples,
            sample_rate: usize,
            num_channels: usize,
            rate: Option<u32>,
            volume: Option<u32>,
            pitch: Option<u32>,
            a: AudioSamples,
            b: AudioSamples,
        |
            #![trigger call_ensures(
                T::transform,
                (&*self.transformer, &given, sample_rate, num_channels, rate, volume, pitch),
                a,
            ), call_ensures(
                T::transform,
                (&*self.transformer, &other, sample_rate, num_channels, rate, volume, pitch),
                b,
            )]
            {
                &&& given@ == other@
                &&& call_ensures(
                    T::transform,
                    (&*self.transformer, &given, sample_rate, num_channels, rate, volume, pitch),
                    a,
                )
                &&& call_ensures(
                    T::transform,
                    (&*self.transformer, &other, sample_rate, num_channels, rate, volume, pitch),
                    b,
                )
            } ==> a@ == b@
    }

    /// With a model and a transformer that answer in one way only, a unit
    /// has one outcome only: whoever synthesizes it, and when, the audio
    /// is the same, sample for sample.
    pub proof fn lemma_one_outcome(
        &self,
        unit: String,
        other: String,
        first: PiperAudioResult,
        second: PiperAudioResult,
    )
        requires
            self.deterministic(),
            unit@ == other@,
            self.unit_outcome(unit, first),
            self.unit_outcome(other, second),
        ensures
            crate::audio::audio_or_error(first) == crate::audio::audio_or_error(second),
    {
        let spoken_first = choose|spoken: PiperAudioResult|
            {
                &&& #[trigger] call_ensures(M::speak_one_sentence, (&*self.model, unit), spoken)
                &&& self.post_processed(spoken, first)
            };
        let spoken_second = choose|spoken: PiperAudioResult|
            {
                &&& #[trigger] call_ensures(M::speak_one_sentence, (&*self.model, other), spoken)
                &&& self.post_processed(spoken, second)
            };
        assert(crate::audio::audio_or_error(spoken_first) == crate::audio::audio_or_error(
            spoken_second,
        ));
    }
}

} // verus!
