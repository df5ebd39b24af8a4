//! The synthesizer: one speech model and one sample transformer, and the
//! ways to get the audio of a text out of them.

use vstd::prelude::*;
use std::collections::HashMap;
use std::sync::Arc;
use rayon::ThreadPool;
use crate::audio::Audio;
use crate::audio::AudioInfo;
use crate::audio::AudioSamples;
use crate::audio::PiperAudioResult;
use crate::error::PiperError;
use crate::error::PiperResult;
use crate::model::PiperModel;
use crate::model::SampleTransformer;
use crate::output::AudioOutputConfig;
use crate::realtime::RealtimeSpeechStream;
use crate::stream::PiperSpeechStreamLazy;
use crate::stream::PiperSpeechStreamParallel;
use crate::task::SpeechSynthesisTaskProvider;

verus! {

/// `Arc::clone`: a second handle to the same allocation. What it points to
/// is what the first points to.
#[verifier::external_body]
fn share<V>(handle: &Arc<V>) -> (shared: Arc<V>)
    ensures
        shared == *handle,
{
    Arc::clone(handle)
}

/// The samples of all pieces of audio, one after the other, or the first
/// failure among them.
pub open spec fn joined(results: Seq<PiperAudioResult>) -> Result<Seq<u32>, PiperError>
    decreases results.len(),
{
    if results.len() == 0 {
        Ok(Seq::empty())
    } else {
        match (results[0], joined(results.subrange(1, results.len() as int))) {
            (Ok(audio), Ok(rest)) => Ok(audio.samples@ + rest),
            (Ok(_), Err(error)) => Err(error),
            (Err(error), _) => Err(error),
        }
    }
}

/// The samples of a whole utterance, from the results of its units: the
/// first failure among them, where there is one, and else their samples
/// one after the other; but no samples at all is a failure too.
pub open spec fn whole_utterance(results: Seq<PiperAudioResult>) -> Result<Seq<u32>, PiperError> {
    match joined(results) {
        Ok(samples) => if samples.len() == 0 {
            Err(PiperError::EmptyOutputError)
        } else {
            Ok(samples)
        },
        Err(error) => Err(error),
    }
}

/// Takes every result out of the stream and joins the samples into those
/// of one utterance.
pub fn collect_utterance(results: PiperSpeechStreamParallel) -> (speech: PiperResult<AudioSamples>)
    ensures
        crate::audio::samples_or_error(speech) == whole_utterance(results.pending()),
{
    let mut stream = results;
    let mut samples = AudioSamples::new(Vec::new());
    loop
        invariant
            joined(results.pending()) == match joined(stream.pending()) {
                Ok(rest) => Ok::<Seq<u32>, PiperError>(samples@ + rest),
                Err(error) => Err(error),
            },
        decreases stream.pending().len(),
    {
        let ghost gathered = samples@;
        match stream.next() {
            Some(Ok(audio)) => {
                samples.append(audio.samples);
                proof {
                    if let Ok(rest) = joined(stream.pending()) {
                        assert(gathered + (audio.samples@ + rest) =~= samples@ + rest);
                    }
                }
            },
            Some(Err(error)) => {
                return Err(error);
            },
            None => {
                assert(samples@ + Seq::<u32>::empty() =~= samples@);
                if samples.is_empty() {
                    return Err(PiperError::EmptyOutputError);
                }
                return Ok(samples);
            },
        }
    }
}

/// A text without pronunciation units is a text without speech: with no
/// result to join, the whole utterance fails for want of output.
pub proof fn lemma_no_units_no_speech(results: Seq<PiperAudioResult>)
    requires
        results.len() == 0,
    ensures
        whole_utterance(results) == Err::<Seq<u32>, PiperError>(PiperError::EmptyOutputError),
{
}

/// Text-to-speech with one model. The model and the transformer are shared
/// by every stream that the synthesizer makes.
pub struct PiperSpeechSynthesizer<M: PiperModel, T: SampleTransformer> {
    model: Arc<M>,
    transformer: Arc<T>,
}

impl<M: PiperModel, T: SampleTransformer> PiperSpeechSynthesizer<M, T> {
    /// The model that the synthesizer speaks with.
    pub closed spec fn model(&self) -> Arc<M> {
        self.model
    }

    /// The transformer that the synthesizer post-processes with.
    pub closed spec fn transformer(&self) -> Arc<T> {
        self.transformer
    }

    /// The provider for synthesizing `text` with this synthesizer.
    pub open spec fn task(
        &self,
        text: String,
        output_config: Option<AudioOutputConfig>,
    ) -> SpeechSynthesisTaskProvider<M, T> {
        SpeechSynthesisTaskProvider {
            model: self.model(),
            transformer: self.transformer(),
            text,
            output_config,
        }
    }

    /// A synthesizer for `model` that post-processes with `transformer`.
    pub fn new(model: Arc<M>, transformer: Arc<T>) -> (made: PiperResult<Self>)
        ensures
            made matches Ok(synth) && synth.model() == model && synth.transformer() == transformer,
    {
        Ok(PiperSpeechSynthesizer { model, transformer })
    }

    fn create_synthesis_task_provider(
        &self,
        text: String,
        output_config: Option<AudioOutputConfig>,
    ) -> (provider: SpeechSynthesisTaskProvider<M, T>)
        ensures
            provider == self.task(text, output_config),
    {
        SpeechSynthesisTaskProvider {
            model: self.clone_model(),
            transformer: share(&self.transformer),
            text,
            output_config,
        }
    }

    /// The audio of `text`, unit by unit, each unit synthesized when it is
    /// asked for.
    pub fn synthesize_lazy(&self, text: String, output_config: Option<AudioOutputConfig>) -> (made:
        PiperResult<PiperSpeechStreamLazy<M, T>>)
        ensures
            PiperSpeechStreamLazy::fetched(self.task(text, output_config), made),
    {
        PiperSpeechStreamLazy::new(self.create_synthesis_task_provider(text, output_config))
    }

    /// The audio of `text`, unit by unit, all units synthesized side by
    /// side on the workers of `pool` before the call returns.
    pub fn synthesize_parallel(
        &self,
        pool: &ThreadPool,
        text: String,
        output_config: Option<AudioOutputConfig>,
    ) -> (made: PiperResult<PiperSpeechStreamParallel>) where
        M: Send + Sync,
        T: Send + Sync,

        ensures
            PiperSpeechStreamParallel::synthesized(self.task(text, output_config), made),
    {
        PiperSpeechStreamParallel::new(
            self.create_synthesis_task_provider(text, output_config),
            pool,
        )
    }

    /// `made` is something that `synthesize_streamed` may return: a
    /// realtime stream for the text, set to the format that the model
    /// declares.
    pub open spec fn streamed(
        &self,
        text: String,
        output_config: Option<AudioOutputConfig>,
        chunk_size: usize,
        chunk_padding: usize,
        made: PiperResult<RealtimeSpeechStream<M, T>>,
    ) -> bool {
        exists|info: AudioInfo|
            {
                &&& #[trigger] call_ensures(M::audio_output_info, (&*self.model(),), info)
                &&& RealtimeSpeechStream::started(
                    self.task(text, output_config),
                    chunk_size,
                    chunk_padding,
                    info.sample_rate,
                    info.num_channels,
                    made,
                )
            }
    }

    /// The audio of `text` in chunks, for playback while the model is
    /// still at work. The chunks of the first unit are asked for in
    /// `chunk_size`; each chunk is padded by `chunk_padding`.
    pub fn synthesize_streamed(
        &self,
        text: String,
        output_config: Option<AudioOutputConfig>,
        chunk_size: usize,
        chunk_padding: usize,
    ) -> (made: PiperResult<RealtimeSpeechStream<M, T>>)
        ensures
            self.streamed(text, output_config, chunk_size, chunk_padding, made),
    {
        let provider = self.create_synthesis_task_provider(text, output_config);
        let wavinfo = self.model.audio_output_info();
        RealtimeSpeechStream::new(
            provider,
            chunk_size,
            chunk_padding,
            wavinfo.sample_rate,
            wavinfo.num_channels,
        )
    }

    /// `written` is something that `synthesize_to_file` may return: the
    /// whole utterance of what eager-parallel synthesis gave for the text,
    /// in the format that the model declares.
    pub open spec fn utterance(
        &self,
        text: String,
        output_config: Option<AudioOutputConfig>,
        written: PiperAudioResult,
    ) -> bool {
        exists|made: PiperResult<PiperSpeechStreamParallel>|
            {
                &&& #[trigger] PiperSpeechStreamParallel::synthesized(
                    self.task(text, output_config),
                    made,
                )
                &&& match made {
                    Ok(stream) => match written {
                        Ok(audio) => {
                            &&& whole_utterance(stream.pending()) == Ok::<Seq<u32>, PiperError>(
                                audio.samples@,
                            )
                            &&& call_ensures(
                                M::audio_output_info,
                                (&*self.model(),),
                                audio.info,
                            )
                        },
                        Err(error) => whole_utterance(stream.pending()) == Err::<
                            Seq<u32>,
                            PiperError,
                        >(error),
                    },
                    Err(error) => written == Err::<Audio, PiperError>(error),
                }
            }
    }

    /// Synthesizes the whole of `text` on the workers of `pool` and
    /// returns the audio that is to be written to the file: the samples of
    /// all units in order, in the model's format. The first unit that
    /// failed fails the call, and so does a text that gave no sample at
    /// all: then nothing is to be written.
    pub fn synthesize_to_file(
        &self,
        pool: &ThreadPool,
        text: String,
        output_config: Option<AudioOutputConfig>,
    ) -> (written: PiperAudioResult) where M: Send + Sync, T: Send + Sync
        ensures
            self.utterance(text, output_config, written),
    {
        let stream = match self.synthesize_parallel(pool, text, output_config) {
            Ok(stream) => stream,
            Err(error) => return Err(error),
        };
        match collect_utterance(stream) {
            Ok(samples) => Ok(Audio { samples, info: self.model.audio_output_info() }),
            Err(error) => Err(error),
        }
    }

    /// Another handle to the synthesizer's model.
    #[inline(always)]
    pub fn clone_model(&self) -> (model: Arc<M>)
        ensures
            model == self.model(),
    {
        share(&self.model)
    }
}

/// A synthesizer is a model itself: every capability is its model's.
impl<M: PiperModel, T: SampleTransformer> PiperModel for PiperSpeechSynthesizer<M, T> {
    type Stream = M::Stream;

    fn audio_output_info(&self) -> (info: AudioInfo)
        ensures
            call_ensures(M::audio_output_info, (&*self.model(),), info),
    {
        self.model.audio_output_info()
    }

    fn phonemize_text(&self, text: &str) -> (units: PiperResult<Vec<String>>)
        ensures
            call_ensures(M::phonemize_text, (&*self.model(), text), units),
    {
        self.model.phonemize_text(text)
    }

    fn speak_batch(&self, phoneme_batches: Vec<String>) -> (spoken: PiperResult<Vec<Audio>>)
        ensures
            call_ensures(M::speak_batch, (&*self.model(), phoneme_batches), spoken),
    {
        self.model.speak_batch(phoneme_batches)
    }

    fn speak_one_sentence(&self, phonemes: String) -> (spoken: PiperAudioResult)
        ensures
            call_ensures(M::speak_one_sentence, (&*self.model(), phonemes), spoken),
    {
        self.model.speak_one_sentence(phonemes)
    }

    fn get_language(&self) -> (language: PiperResult<Option<String>>)
        ensures
            call_ensures(M::get_language, (&*self.model(),), language),
    {
        self.model.get_language()
    }

    fn get_speakers(&self) -> (speakers: PiperResult<Option<&HashMap<i64, String>>>)
        ensures
            call_ensures(M::get_speakers, (&*self.model(),), speakers),
    {
        self.model.get_speakers()
    }

    fn set_speaker(&self, sid: i64) -> (refused: Option<PiperError>)
        ensures
            call_ensures(M::set_speaker, (&*self.model(), sid), refused),
    {
        self.model.set_speaker(sid)
    }

    fn properties(&self) -> (properties: PiperResult<HashMap<String, String>>)
        ensures
            call_ensures(M::properties, (&*self.model(),), properties),
    {
        self.model.properties()
    }

    fn supports_streaming_output(&self) -> (supported: bool)
        ensures
            call_ensures(M::supports_streaming_output, (&*self.model(),), supported),
    {
        self.model.supports_streaming_output()
    }

    fn stream_synthesis(&self, phonemes: String, chunk_size: usize, chunk_padding: usize) -> (opened:
        PiperResult<M::Stream>)
        ensures
            call_ensures(
                M::stream_synthesis,
                (&*self.model(), phonemes, chunk_size, chunk_padding),
                opened,
            ),
    {
        self.model.stream_synthesis(phonemes, chunk_size, chunk_padding)
    }
}

} // verus!
