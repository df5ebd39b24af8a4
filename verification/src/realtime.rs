//! Streaming synthesis for playback while the model is still at work.
//!
//! A realtime stream is a state machine. A background worker drives it
//! with a loop of its own: it asks the machine for the model's stream of
//! the next unit, pulls the chunks of that stream and hands each to the
//! machine. The machine decides everything else: which unit is streamed
//! next and with what chunk size, how a chunk is post-processed, what goes
//! onto the channel to the consumer and in what order, when the trailing
//! silence is due, and when the work is over.
//!
//! The stream is made by fetching the pronunciation units; from there it
//! goes through `StreamingUnit(0)`, `StreamingUnit(1)` and so on, then
//! through `AppendingSilence` or `Done`, and ends in `Closed`. A failure,
//! or a consumer that went away, closes it from wherever it stands.
//!
//! Each step comes in two forms. `advance` and `push_chunk` give back
//! what is to be sent; `next_unit` and `forward_chunk` send it, and `sent`
//! decides on the channel's answer.

use vstd::prelude::*;
use flume::Sender;
use crate::audio::AudioSamples;
use crate::error::PiperError;
use crate::error::PiperResult;
use crate::model::PiperModel;
use crate::model::SampleTransformer;
use crate::task::SpeechSynthesisTaskProvider;

verus! {

/// `flume::Sender`: the sending end of a channel.
#[verifier::external_type_specification]
#[verifier::external_body]
#[verifier::reject_recursive_types(V)]
pub struct ExSender<V>(flume::Sender<V>);

/// `Sender::send`: offers `item` to the channel and says whether the
/// channel took it. A channel whose receivers are all gone takes nothing.
/// Nothing is promised of the answer: it is the consumer's to give.
#[verifier::external_body]
fn send(tx: &Sender<PiperResult<AudioSamples>>, item: PiperResult<AudioSamples>) -> (taken: bool) {
    tx.send(item).is_ok()
}

/// By how much the chunk size grows with every chunk that was delivered.
pub const CHUNK_GROWTH_FACTOR: usize = 1;

/// The chunk size that is asked of the model for a unit when `emitted`
/// chunks have been delivered before it: the base size for as long as
/// nothing was delivered, then the base size times the growth factor times
/// the number of chunks delivered, or the largest size there is where that
/// product is larger still.
pub open spec fn requested_chunk_size(base: usize, emitted: usize) -> usize {
    if emitted == 0 {
        base
    } else if base * CHUNK_GROWTH_FACTOR * emitted > usize::MAX {
        usize::MAX
    } else {
        (base * CHUNK_GROWTH_FACTOR * emitted) as usize
    }
}

/// Computes the chunk size to ask of the model for the next unit.
pub fn chunk_size_for(base: usize, emitted: usize) -> (size: usize)
    ensures
        size == requested_chunk_size(base, emitted),
{
    if emitted == 0 {
        return base;
    }
    assert(base * CHUNK_GROWTH_FACTOR * emitted == base * emitted) by (nonlinear_arith);
    match base.checked_mul(emitted) {
        Some(size) => size,
        None => usize::MAX,
    }
}

/// Chunk sizes never shrink along a stream: of two requests for the same
/// base size, the one that is made after more chunks have been delivered
/// asks for chunks at least as large.
pub proof fn lemma_chunk_size_never_shrinks(base: usize, earlier: usize, later: usize)
    requires
        earlier <= later,
    ensures
        requested_chunk_size(base, earlier) <= requested_chunk_size(base, later),
{
    if 0 < earlier {
        assert(base * CHUNK_GROWTH_FACTOR * earlier <= base * CHUNK_GROWTH_FACTOR * later)
            by (nonlinear_arith)
            requires
                earlier <= later,
        ;
    } else if 0 < later {
        assert(base <= base * CHUNK_GROWTH_FACTOR * later) by (nonlinear_arith)
            requires
                0 < later,
        ;
    }
}

/// Where a realtime stream stands.
#[derive(Debug, Clone, Copy, PartialEq, Eq, Structural)]
pub enum StreamPhase {
    /// The unit of this index is being streamed, or is the next to be.
    StreamingUnit(usize),
    /// Every unit has been streamed and the trailing silence is due.
    AppendingSilence,
    /// Every unit has been streamed and nothing is left to deliver.
    Done,
    /// Nothing more will be delivered.
    Closed,
}

/// What the worker is to do next.
pub enum StreamStep<S> {
    /// Pull the chunks of this stream, hand each to `push_chunk`, and call
    /// `end_unit` when the stream is exhausted.
    Stream(S),
    /// Send this item and close the channel.
    Last(PiperResult<AudioSamples>),
    /// Close the channel.
    Close,
}

/// What the worker is to do with a chunk that it handed in.
pub enum ChunkStep {
    /// Send these samples and go on pulling.
    Deliver(AudioSamples),
    /// Send this error and close the channel.
    Fail(PiperError),
    /// Send nothing: the stream is not streaming a unit.
    Skip,
}

/// What a realtime stream is made of, as contracts see it. The provider
/// that it synthesizes with is stated apart, by `provider`.
pub struct RealtimeState {
    pub units: Seq<String>,
    pub phase: StreamPhase,
    /// The number of chunks delivered so far, over all units.
    pub emitted: usize,
    pub chunk_size: usize,
    pub chunk_padding: usize,
    pub sample_rate: usize,
    pub num_channels: usize,
}

impl RealtimeState {
    /// The chunk size that the stream asks of the model when it streams a
    /// unit from where it stands.
    pub open spec fn next_chunk_size(self) -> usize {
        requested_chunk_size(self.chunk_size, self.emitted)
    }

    /// The same stream, closed.
    pub open spec fn closed(self) -> RealtimeState {
        RealtimeState { phase: StreamPhase::Closed, ..self }
    }

    /// The same stream with one more chunk delivered. The count stops at
    /// the largest number there is.
    pub open spec fn counted(self) -> RealtimeState {
        RealtimeState {
            emitted: if self.emitted < usize::MAX {
                (self.emitted + 1) as usize
            } else {
                self.emitted
            },
            ..self
        }
    }
}

/// The state machine of one realtime synthesis request.
pub struct RealtimeSpeechStream<M: PiperModel, T: SampleTransformer> {
    provider: SpeechSynthesisTaskProvider<M, T>,
    units: Vec<String>,
    current: usize,
    closed: bool,
    emitted: usize,
    chunk_size: usize,
    chunk_padding: usize,
    sample_rate: usize,
    num_channels: usize,
}

impl<M: PiperModel, T: SampleTransformer> View for RealtimeSpeechStream<M, T> {
    type V = RealtimeState;

    closed spec fn view(&self) -> RealtimeState {
        RealtimeState {
            units: self.units@,
            phase: Self::phase_at(self.provider, self.units@, self.current, self.closed),
            emitted: self.emitted,
            chunk_size: self.chunk_size,
            chunk_padding: self.chunk_padding,
            sample_rate: self.sample_rate,
            num_channels: self.num_channels,
        }
    }
}

impl<M: PiperModel, T: SampleTransformer> RealtimeSpeechStream<M, T> {
    #[verifier::type_invariant]
    spec fn well_formed(self) -> bool {
        self.current <= self.units@.len()
    }

    /// The provider that the stream synthesizes with.
    pub closed spec fn provider(&self) -> SpeechSynthesisTaskProvider<M, T> {
        self.provider
    }

    /// The silence that `provider` appends to a stream of `units`, in
    /// milliseconds: the configured one, where there is a unit to append
    /// it to.
    pub open spec fn trailing_silence(
        provider: SpeechSynthesisTaskProvider<M, T>,
        units: Seq<String>,
    ) -> Option<u32> {
        match provider.output_config {
            Some(config) if units.len() > 0 => config.appended_silence_ms,
            _ => None,
        }
    }

    /// The phase of a stream that is closed or not and has `current` of its
    /// units behind it.
    pub open spec fn phase_at(
        provider: SpeechSynthesisTaskProvider<M, T>,
        units: Seq<String>,
        current: usize,
        closed: bool,
    ) -> StreamPhase {
        if closed {
            StreamPhase::Closed
        } else if current < units.len() {
            StreamPhase::StreamingUnit(current)
        } else if Self::trailing_silence(provider, units) is Some {
            StreamPhase::AppendingSilence
        } else {
            StreamPhase::Done
        }
    }

    /// The phase of a stream that has just been made for `units`.
    pub open spec fn first_phase(
        provider: SpeechSynthesisTaskProvider<M, T>,
        units: Seq<String>,
    ) -> StreamPhase {
        Self::phase_at(provider, units, 0, false)
    }

    /// The phase that follows the streaming of the unit of index `unit`.
    pub open spec fn phase_after(
        provider: SpeechSynthesisTaskProvider<M, T>,
        units: Seq<String>,
        unit: usize,
    ) -> StreamPhase {
        if unit + 1 < units.len() {
            StreamPhase::StreamingUnit((unit + 1) as usize)
        } else if Self::trailing_silence(provider, units) is Some {
            StreamPhase::AppendingSilence
        } else {
            StreamPhase::Done
        }
    }

    /// `made` is something that `new` may return: a stream before the first
    /// of the units that the model gave for the text, with no chunk
    /// delivered yet; or the model's error.
    pub open spec fn started(
        provider: SpeechSynthesisTaskProvider<M, T>,
        chunk_size: usize,
        chunk_padding: usize,
        sample_rate: usize,
        num_channels: usize,
        made: PiperResult<Self>,
    ) -> bool {
        match made {
            Ok(stream) => {
                &&& stream.provider() == provider
                &&& exists|units: Vec<String>|
                    #[trigger] provider.units_outcome(Ok(units)) && stream@.units == units@
                &&& stream@ == (RealtimeState {
                    units: stream@.units,
                    phase: Self::first_phase(provider, stream@.units),
                    emitted: 0,
                    chunk_size,
                    chunk_padding,
                    sample_rate,
                    num_channels,
                })
            },
            Err(error) => provider.units_outcome(Err(error)),
        }
    }

    /// Fetches the pronunciation units of the provider's text and sets the
    /// stream before the first of them. Where the model fails at that, no
    /// stream is made: the request fails before any chunk is delivered.
    pub fn new(
        provider: SpeechSynthesisTaskProvider<M, T>,
        chunk_size: usize,
        chunk_padding: usize,
        sample_rate: usize,
        num_channels: usize,
    ) -> (made: PiperResult<Self>)
        ensures
            Self::started(provider, chunk_size, chunk_padding, sample_rate, num_channels, made),
    {
        match provider.get_phonemes() {
            Ok(units) => Ok(
                RealtimeSpeechStream {
                    provider,
                    units,
                    current: 0,
                    closed: false,
                    emitted: 0,
                    chunk_size,
                    chunk_padding,
                    sample_rate,
                    num_channels,
                },
            ),
            Err(error) => Err(error),
        }
    }

    /// Where the stream stands.
    pub fn phase(&self) -> (phase: StreamPhase)
        ensures
            phase == self@.phase,
    {
        proof {
            use_type_invariant(self);
        }
        if self.closed {
            StreamPhase::Closed
        } else if self.current < self.units.len() {
            StreamPhase::StreamingUnit(self.current)
        } else if self.silence_ms().is_some() {
            StreamPhase::AppendingSilence
        } else {
            StreamPhase::Done
        }
    }

    /// The number of chunks delivered so far.
    pub fn chunks_emitted(&self) -> (emitted: usize)
        ensures
            emitted == self@.emitted,
    {
        self.emitted
    }

    /// `opened` is something that the model may answer when the stream
    /// asks it to stream the unit of index `unit`: the request names that
    /// unit, the chunk size that the chunks delivered so far call for,
    /// and the stream's chunk padding.
    pub open spec fn stream_outcome(&self, unit: usize, opened: PiperResult<M::Stream>) -> bool {
        call_ensures(
            M::stream_synthesis,
            (
                &*self.provider().model,
                self@.units[unit as int],
                self@.next_chunk_size(),
                self@.chunk_padding,
            ),
            opened,
        )
    }

    /// `item` is a trailing silence that the stream may deliver: the
    /// configured duration at the stream's sample rate, generated by
    /// `generate_silence`.
    pub open spec fn silence_delivered(&self, item: PiperResult<AudioSamples>) -> bool {
        match (
            self.provider().output_config,
            Self::trailing_silence(self.provider(), self@.units),
        ) {
            (Some(config), Some(time_ms)) => config.silence_outcome(
                &*self.provider().transformer,
                time_ms as usize,
                self@.sample_rate,
                self@.num_channels,
                crate::audio::samples_or_error(item),
            ),
            _ => false,
        }
    }

    /// Tells the worker what to do next.
    ///
    /// While a unit is left, the model is asked to stream it, with a chunk
    /// size that grows with the number of chunks delivered so far; where
    /// the model refuses, its error is the last item and the stream is
    /// closed. The unit stays the current one until `end_unit` is called.
    /// After the last unit the trailing silence, if one is configured, is
    /// the last item. Then the stream is closed, and a closed stream stays
    /// closed.
    pub fn advance(&mut self) -> (step: StreamStep<M::Stream>)
        ensures
            final(self).provider() == old(self).provider(),
            old(self)@.next_chunk_size() <= final(self)@.next_chunk_size(),
            match old(self)@.phase {
                StreamPhase::StreamingUnit(unit) => match step {
                    StreamStep::Stream(stream) => {
                        &&& final(self)@ == old(self)@
                        &&& old(self).stream_outcome(unit, Ok(stream))
                    },
                    StreamStep::Last(item) => {
                        &&& final(self)@ == old(self)@.closed()
                        &&& item matches Err(error) && old(self).stream_outcome(unit, Err(error))
                    },
                    StreamStep::Close => false,
                },
                StreamPhase::AppendingSilence => {
                    &&& final(self)@ == old(self)@.closed()
                    &&& step matches StreamStep::Last(item) && old(self).silence_delivered(item)
                },
                StreamPhase::Done => step is Close && final(self)@ == old(self)@.closed(),
                StreamPhase::Closed => step is Close && final(self)@ == old(self)@,
            },
    {
        proof {
            use_type_invariant(&*self);
        }
        if self.closed {
            return StreamStep::Close;
        }
        if self.current < self.units.len() {
            let size = chunk_size_for(self.chunk_size, self.emitted);
            let phonemes = self.units[self.current].clone();
            match self.provider.model.stream_synthesis(phonemes, size, self.chunk_padding) {
                Ok(stream) => StreamStep::Stream(stream),
                Err(error) => {
                    self.closed = true;
                    StreamStep::Last(Err(error))
                },
            }
        } else {
            let step = match (&self.provider.output_config, self.silence_ms()) {
                (Some(config), Some(time_ms)) => StreamStep::Last(
                    config.generate_silence(
                        &*self.provider.transformer,
                        time_ms as usize,
                        self.sample_rate,
                        self.num_channels,
                    ),
                ),
                _ => StreamStep::Close,
            };
            self.closed = true;
            step
        }
    }

    /// Relates a chunk that the model produced to what is delivered for
    /// it: the model's error as it is, the model's samples as they are
    /// where no post-processing is configured, and else what
    /// `apply_to_raw_samples` makes of the model's samples.
    pub open spec fn chunk_outcome(
        &self,
        chunk: PiperResult<AudioSamples>,
        delivered: Result<Seq<u32>, PiperError>,
    ) -> bool {
        match (chunk, self.provider().output_config) {
            (Ok(samples), Some(config)) => config.raw_outcome(
                &*self.provider().transformer,
                samples@,
                self@.sample_rate,
                self@.num_channels,
                delivered,
            ),
            _ => delivered == crate::audio::samples_or_error(chunk),
        }
    }

    /// Takes one chunk of the unit that is being streamed and tells the
    /// worker what to send for it.
    ///
    /// Samples are post-processed, delivered and counted. A failure, the
    /// model's or the post-processing's, is delivered as the last item and
    /// closes the stream. A stream that is not streaming a unit takes no
    /// chunk.
    pub fn push_chunk(&mut self, chunk: PiperResult<AudioSamples>) -> (step: ChunkStep)
        ensures
            final(self).provider() == old(self).provider(),
            old(self)@.next_chunk_size() <= final(self)@.next_chunk_size(),
            match old(self)@.phase {
                StreamPhase::StreamingUnit(_) => match step {
                    ChunkStep::Deliver(samples) => {
                        &&& final(self)@ == old(self)@.counted()
                        &&& old(self).chunk_outcome(chunk, Ok(samples@))
                    },
                    ChunkStep::Fail(error) => {
                        &&& final(self)@ == old(self)@.closed()
                        &&& old(self).chunk_outcome(chunk, Err(error))
                    },
                    ChunkStep::Skip => false,
                },
                _ => step is Skip && final(self)@ == old(self)@,
            },
    {
        proof {
            use_type_invariant(&*self);
        }
        if self.closed || self.current >= self.units.len() {
            return ChunkStep::Skip;
        }
        let processed = match chunk {
            Ok(samples) => match &self.provider.output_config {
                Some(config) => config.apply_to_raw_samples(
                    &*self.provider.transformer,
                    samples,
                    self.sample_rate,
                    self.num_channels,
                ),
                None => Ok(samples),
            },
            Err(error) => Err(error),
        };
        match processed {
            Ok(samples) => {
                proof {
                    lemma_chunk_size_never_shrinks(
                        self.chunk_size,
                        self.emitted,
                        self@.counted().emitted,
                    );
                }
                self.emitted = self.emitted.saturating_add(1);
                ChunkStep::Deliver(samples)
            },
            Err(error) => {
                self.closed = true;
                ChunkStep::Fail(error)
            },
        }
    }

    /// Takes note that the stream of the current unit is exhausted: the
    /// next unit is up, or, after the last one, the trailing silence or
    /// the end. In any other phase nothing changes.
    pub fn end_unit(&mut self)
        ensures
            final(self).provider() == old(self).provider(),
            old(self)@.next_chunk_size() <= final(self)@.next_chunk_size(),
            final(self)@ == match old(self)@.phase {
                StreamPhase::StreamingUnit(unit) => RealtimeState {
                    phase: Self::phase_after(old(self).provider(), old(self)@.units, unit),
                    ..old(self)@
                },
                _ => old(self)@,
            },
    {
        proof {
            use_type_invariant(&*self);
        }
        if !self.closed && self.current < self.units.len() {
            self.current = self.current + 1;
        }
    }

    /// Takes note that the consumer is gone: the stream is closed, and no
    /// further work is done for it.
    pub fn cancel(&mut self)
        ensures
            final(self).provider() == old(self).provider(),
            old(self)@.next_chunk_size() <= final(self)@.next_chunk_size(),
            final(self)@ == old(self)@.closed(),
    {
        proof {
            use_type_invariant(&*self);
        }
        self.closed = true;
    }

    /// Takes the channel's answer to samples that were offered to it and
    /// says whether the worker is to go on pulling. Samples that the
    /// channel took leave the stream as it is, and the work goes on.
    /// Samples that it did not take mean that the consumer is gone: the
    /// stream is closed and the work is over, with no fault to report.
    pub fn sent(&mut self, taken: bool) -> (go_on: bool)
        ensures
            go_on == taken,
            final(self).provider() == old(self).provider(),
            final(self)@ == (if taken {
                old(self)@
            } else {
                old(self)@.closed()
            }),
    {
        if !taken {
            self.cancel();
        }
        taken
    }

    /// Does the next step of the stream on the channel `tx`: hands back
    /// the model's stream for the unit that is up, for the worker to pull
    /// its chunks; or, where no unit is left or the model refuses, sends
    /// what is due as the last item, closes the stream and hands back
    /// nothing.
    pub fn next_unit(&mut self, tx: &Sender<PiperResult<AudioSamples>>) -> (opened: Option<
        M::Stream,
    >)
        ensures
            final(self).provider() == old(self).provider(),
            old(self)@.next_chunk_size() <= final(self)@.next_chunk_size(),
            match (old(self)@.phase, opened) {
                (StreamPhase::StreamingUnit(unit), Some(stream)) => {
                    &&& final(self)@ == old(self)@
                    &&& old(self).stream_outcome(unit, Ok(stream))
                },
                (StreamPhase::StreamingUnit(unit), None) => {
                    &&& final(self)@ == old(self)@.closed()
                    &&& exists|error: PiperError| #[trigger]
                        old(self).stream_outcome(unit, Err(error))
                },
                (_, Some(_)) => false,
                (_, None) => final(self)@ == old(self)@.closed(),
            },
    {
        match self.advance() {
            StreamStep::Stream(stream) => Some(stream),
            StreamStep::Last(item) => {
                send(tx, item);
                None
            },
            StreamStep::Close => None,
        }
    }

    /// Takes one chunk of the unit that is being streamed, sends what is
    /// to be delivered for it on the channel `tx`, and says whether the
    /// worker is to go on pulling.
    ///
    /// The worker goes on after samples that the channel took. It stops,
    /// and the stream is closed, after a failure, which is sent as the
    /// last item, and after samples that the channel did not take: then
    /// the consumer is gone, and nothing more is done for it. What follows
    /// from the channel's answer is `sent`'s to say.
    pub fn forward_chunk(
        &mut self,
        tx: &Sender<PiperResult<AudioSamples>>,
        chunk: PiperResult<AudioSamples>,
    ) -> (go_on: bool)
        ensures
            final(self).provider() == old(self).provider(),
            old(self)@.next_chunk_size() <= final(self)@.next_chunk_size(),
            match old(self)@.phase {
                StreamPhase::StreamingUnit(_) => if go_on {
                    &&& final(self)@ == old(self)@.counted()
                    &&& exists|samples: Seq<u32>| #[trigger]
                        old(self).chunk_outcome(chunk, Ok(samples))
                } else {
                    ||| {
                        &&& final(self)@ == old(self)@.counted().closed()
                        &&& exists|samples: Seq<u32>| #[trigger]
                            old(self).chunk_outcome(chunk, Ok(samples))
                    }
                    ||| {
                        &&& final(self)@ == old(self)@.closed()
                        &&& exists|error: PiperError| #[trigger]
                            old(self).chunk_outcome(chunk, Err(error))
                    }
                },
                _ => !go_on && final(self)@ == old(self)@,
            },
    {
        match self.push_chunk(chunk) {
            ChunkStep::Deliver(samples) => {
                let taken = send(tx, Ok(samples));
                self.sent(taken)
            },
            ChunkStep::Fail(error) => {
                send(tx, Err(error));
                false
            },
            ChunkStep::Skip => false,
        }
    }

    fn silence_ms(&self) -> (silence: Option<u32>)
        ensures
            silence == Self::trailing_silence(self.provider, self.units@),
    {
        match &self.provider.output_config {
            Some(config) => if self.units.len() > 0 {
                config.appended_silence_ms
            } else {
                None
            },
            None => None,
        }
    }
}

} // verus!
