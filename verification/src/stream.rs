//! Two ways to go through the audio of a text, unit by unit: one that
//! synthesizes a unit when it is asked for, and one that has synthesized
//! them all, side by side, before the first is asked for.

use vstd::prelude::*;
use std::collections::VecDeque;
use rayon::ThreadPool;
use rayon::iter::IntoParallelRefIterator;
use rayon::iter::ParallelIterator;
use crate::audio::PiperAudioResult;
use crate::error::PiperResult;
use crate::model::PiperModel;
use crate::model::SampleTransformer;
use crate::queue::queue_of;
use crate::task::SpeechSynthesisTaskProvider;

verus! {

/// `rayon::ThreadPool`: a fixed set of worker threads.
#[verifier::external_type_specification]
#[verifier::external_body]
pub struct ExThreadPool(rayon::ThreadPool);

/// The audio of a text, synthesized on demand: the pronunciation units are
/// fetched when the stream is made, and each call of `next` synthesizes
/// one of them on the caller's thread.
pub struct PiperSpeechStreamLazy<M: PiperModel, T: SampleTransformer> {
    provider: SpeechSynthesisTaskProvider<M, T>,
    sentence_phonemes: VecDeque<String>,
}

impl<M: PiperModel, T: SampleTransformer> PiperSpeechStreamLazy<M, T> {
    /// The provider that the stream synthesizes with.
    pub closed spec fn provider(&self) -> SpeechSynthesisTaskProvider<M, T> {
        self.provider
    }

    /// The pronunciation units that are still to be synthesized, in order.
    pub closed spec fn pending(&self) -> Seq<String> {
        self.sentence_phonemes@
    }

    /// `made` is something that `new` may return for `provider`: a stream
    /// before the first of the units that the model gave for the text, or
    /// the model's error.
    pub open spec fn fetched(
        provider: SpeechSynthesisTaskProvider<M, T>,
        made: PiperResult<Self>,
    ) -> bool {
        match made {
            Ok(stream) => {
                &&& stream.provider() == provider
                &&& exists|units: Vec<String>|
                    #[trigger] provider.units_outcome(Ok(units)) && stream.pending() == units@
            },
            Err(error) => provider.units_outcome(Err(error)),
        }
    }

    /// Fetches the pronunciation units of the provider's text. Where the model
    /// fails at that, no stream is made and no audio work is begun.
    pub fn new(provider: SpeechSynthesisTaskProvider<M, T>) -> (made: PiperResult<Self>)
        ensures
            Self::fetched(provider, made),
    {
        match provider.get_phonemes() {
            Ok(units) => Ok(
                PiperSpeechStreamLazy { provider, sentence_phonemes: queue_of(units) },
            ),
            Err(error) => Err(error),
        }
    }

    /// Synthesizes the next pronunciation unit, if there is one, and
    /// delivers its audio or its failure. A failure does not end the
    /// stream: the units after it are still to come.
    pub fn next(&mut self) -> (item: Option<PiperAudioResult>)
        ensures
            final(self).provider() == old(self).provider(),
            match item {
                Some(delivered) => {
                    &&& old(self).pending().len() > 0
                    &&& final(self).pending() == old(self).pending().subrange(
                        1,
                        old(self).pending().len() as int,
                    )
                    &&& old(self).provider().unit_outcome(old(self).pending()[0], delivered)
                },
                None => old(self).pending().len() == 0 && final(self).pending().len() == 0,
            },
    {
        match self.sentence_phonemes.pop_front() {
            Some(phonemes) => Some(self.provider.process_one_sentence(phonemes)),
            None => None,
        }
    }
}

/// `ThreadPool::install` around a parallel `map` over the units that is
/// collected into a vector. The pool's workers call `process_one_sentence`
/// once for each unit, in any order and side by side; the call returns when
/// all of them have, and the vector holds each unit's outcome at the unit's
/// own position, whichever finished first.
#[verifier::external_body]
fn process_in_pool<M, T>(
    pool: &ThreadPool,
    provider: &SpeechSynthesisTaskProvider<M, T>,
    units: &Vec<String>,
) -> (delivered: Vec<PiperAudioResult>) where
    M: PiperModel + Send + Sync,
    T: SampleTransformer + Send + Sync,

    ensures
        delivered@.len() == units@.len(),
        forall|i: int|
            0 <= i < units@.len() ==> provider.unit_outcome(units@[i], #[trigger] delivered@[i]),
{
    pool.install(
        || units.par_iter().map(|phonemes| provider.process_one_sentence(phonemes.clone())).collect(),
    )
}

/// The audio of a text, synthesized ahead: when the stream is made, every
/// pronunciation unit has been synthesized, and `next` only hands the
/// results out.
#[must_use]
pub struct PiperSpeechStreamParallel {
    precalculated_results: VecDeque<PiperAudioResult>,
}

impl PiperSpeechStreamParallel {
    /// The results that are still to be handed out, in order.
    pub closed spec fn pending(&self) -> Seq<PiperAudioResult> {
        self.precalculated_results@
    }

    /// `made` is something that `new` may return for `provider`: a stream
    /// that holds, for each of the units that the model gave for the text
    /// and at the unit's own position, an outcome of that unit; or the
    /// model's error.
    pub open spec fn synthesized<M: PiperModel, T: SampleTransformer>(
        provider: SpeechSynthesisTaskProvider<M, T>,
        made: PiperResult<Self>,
    ) -> bool {
        match made {
            Ok(stream) => exists|units: Vec<String>|
                {
                    &&& #[trigger] provider.units_outcome(Ok(units))
                    &&& stream.pending().len() == units@.len()
                    &&& forall|i: int|
                        0 <= i < units@.len() ==> provider.unit_outcome(
                            units@[i],
                            #[trigger] stream.pending()[i],
                        )
                },
            Err(error) => provider.units_outcome(Err(error)),
        }
    }

    /// Fetches the pronunciation units of the provider's text and synthesizes
    /// all of them on the workers of `pool`, returning when the last one is
    /// done. The results stand in the order of the units, and a unit that
    /// failed has its failure at its place, with the other units' audio
    /// around it. Only a failure to fetch the units fails the whole call.
    pub fn new<M, T>(provider: SpeechSynthesisTaskProvider<M, T>, pool: &ThreadPool) -> (made:
        PiperResult<Self>) where
        M: PiperModel + Send + Sync,
        T: SampleTransformer + Send + Sync,

        ensures
            Self::synthesized(provider, made),
    {
        match provider.get_phonemes() {
            Ok(units) => {
                let calculated_result = process_in_pool(pool, &provider, &units);
                Ok(PiperSpeechStreamParallel { precalculated_results: queue_of(calculated_result) })
            },
            Err(error) => Err(error),
        }
    }

    /// Hands out the next result, if there is one.
    pub fn next(&mut self) -> (item: Option<PiperAudioResult>)
        ensures
            match item {
                Some(delivered) => {
                    &&& old(self).pending().len() > 0
                    &&& delivered == old(self).pending()[0]
                    &&& final(self).pending() == old(self).pending().subrange(
                        1,
                        old(self).pending().len() as int,
                    )
                },
                None => old(self).pending().len() == 0 && final(self).pending().len() == 0,
            },
    {
        self.precalculated_results.pop_front()
    }
}

/// Determinism across strategies. With a model and a transformer that
/// answer every question in one way only, going through a text unit by
/// unit and synthesizing all its units ahead come to the same: as many
/// units, and at each position the same audio, sample for sample, or the
/// same failure. `delivered` stands for what the lazy stream delivers for
/// the unit at `position`.
pub proof fn lemma_strategies_agree<M: PiperModel, T: SampleTransformer>(
    provider: SpeechSynthesisTaskProvider<M, T>,
    lazy: PiperSpeechStreamLazy<M, T>,
    eager: PiperSpeechStreamParallel,
    position: int,
    delivered: PiperAudioResult,
)
    requires
        provider.deterministic(),
        PiperSpeechStreamLazy::fetched(provider, Ok(lazy)),
        PiperSpeechStreamParallel::synthesized(provider, Ok(eager)),
        0 <= position < lazy.pending().len(),
        provider.unit_outcome(lazy.pending()[position], delivered),
    ensures
        eager.pending().len() == lazy.pending().len(),
        crate::audio::audio_or_error(eager.pending()[position]) == crate::audio::audio_or_error(
            delivered,
        ),
{
    let one = choose|units: Vec<String>|
        #[trigger] provider.units_outcome(Ok(units)) && lazy.pending() == units@;
    let two = choose|units: Vec<String>|
        {
            &&& #[trigger] provider.units_outcome(Ok(units))
            &&& eager.pending().len() == units@.len()
            &&& forall|i: int|
                0 <= i < units@.len() ==> provider.unit_outcome(
                    units@[i],
                    #[trigger] eager.pending()[i],
                )
        };
    assert(crate::task::unit_texts(one@) == crate::task::unit_texts(two@));
    assert(one@[position]@ == two@[position]@) by {
        assert(crate::task::unit_texts(one@)[position] == one@[position]@);
        assert(crate::task::unit_texts(two@)[position] == two@[position]@);
    }
    provider.lemma_one_outcome(
        one@[position],
        two@[position],
        delivered,
        eager.pending()[position],
    );
}

} // verus!
