//! Synthesis orchestration for a text-to-speech pipeline.
//!
//! A speech model turns text into pronunciation units, one per sentence,
//! and each unit into audio. This crate drives such a model: it
//! post-processes what the model produces (rate, volume, pitch, trailing
//! silence) and delivers the audio in one of three ways: unit by unit on
//! demand, all units synthesized side by side ahead of time, or chunk by
//! chunk for playback while the model is still at work.

pub mod audio;
pub mod error;
pub mod model;
pub mod output;
pub mod queue;
pub mod realtime;
pub mod stream;
pub mod synth;
pub mod task;

pub use audio::Audio;
pub use audio::AudioInfo;
pub use audio::AudioSamples;
pub use audio::PiperAudioResult;
pub use error::PiperError;
pub use error::PiperResult;
pub use model::PiperModel;
pub use model::SampleTransformer;
pub use output::AudioOutputConfig;
pub use realtime::ChunkStep;
pub use realtime::RealtimeSpeechStream;
pub use realtime::StreamPhase;
pub use realtime::StreamStep;
pub use stream::PiperSpeechStreamLazy;
pub use stream::PiperSpeechStreamParallel;
pub use synth::PiperSpeechSynthesizer;
pub use task::SpeechSynthesisTaskProvider;
