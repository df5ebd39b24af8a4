use std::collections::HashMap;
use std::sync::{Arc, Mutex};

use piper_synth::realtime::{chunk_size_for, CHUNK_GROWTH_FACTOR};
use piper_synth::{
    Audio, AudioInfo, AudioOutputConfig, AudioSamples, ChunkStep, PiperAudioResult, PiperError,
    PiperModel, PiperResult, PiperSpeechSynthesizer, RealtimeSpeechStream, SampleTransformer,
    StreamPhase, StreamStep,
};

type Chunks = std::vec::IntoIter<PiperResult<AudioSamples>>;

fn chunk(first: u32, count: usize) -> PiperResult<AudioSamples> {
    Ok(AudioSamples::new((0..count as u32).map(|offset| first + offset).collect()))
}

fn hiccup() -> PiperError {
    PiperError::ModelError("hiccup".to_string())
}

/// A model that streams what its script says for each unit, and writes
/// down what it was asked for. Its units are the letters of the text.
struct ChunkedModel {
    script: HashMap<String, PiperResult<Vec<PiperResult<AudioSamples>>>>,
    requests: Mutex<Vec<(String, usize, usize)>>,
}

impl ChunkedModel {
    fn new(script: Vec<(&str, PiperResult<Vec<PiperResult<AudioSamples>>>)>) -> Self {
        ChunkedModel {
            script: script.into_iter().map(|(unit, chunks)| (unit.to_string(), chunks)).collect(),
            requests: Mutex::new(Vec::new()),
        }
    }

    fn requests(&self) -> Vec<(String, usize, usize)> {
        self.requests.lock().unwrap().clone()
    }
}

impl PiperModel for ChunkedModel {
    type Stream = Chunks;

    fn audio_output_info(&self) -> AudioInfo {
        AudioInfo { sample_rate: 22050, num_channels: 1, sample_width: 2 }
    }

    fn phonemize_text(&self, text: &str) -> PiperResult<Vec<String>> {
        if text.starts_with('?') {
            return Err(PiperError::ModelError("cannot phonemize".to_string()));
        }
        Ok(text.chars().map(String::from).collect())
    }

    fn speak_batch(&self, _phoneme_batches: Vec<String>) -> PiperResult<Vec<Audio>> {
        Err(PiperError::ModelError("streams only".to_string()))
    }

    fn speak_one_sentence(&self, _phonemes: String) -> PiperAudioResult {
        Err(PiperError::ModelError("streams only".to_string()))
    }

    fn get_language(&self) -> PiperResult<Option<String>> {
        Ok(None)
    }

    fn get_speakers(&self) -> PiperResult<Option<&HashMap<i64, String>>> {
        Ok(None)
    }

    fn set_speaker(&self, _sid: i64) -> Option<PiperError> {
        None
    }

    fn properties(&self) -> PiperResult<HashMap<String, String>> {
        Ok(HashMap::new())
    }

    fn supports_streaming_output(&self) -> bool {
        true
    }

    fn stream_synthesis(
        &self,
        phonemes: String,
        chunk_size: usize,
        chunk_padding: usize,
    ) -> PiperResult<Chunks> {
        self.requests.lock().unwrap().push((phonemes.clone(), chunk_size, chunk_padding));
        self.script[&phonemes].clone().map(|chunks| chunks.into_iter())
    }
}

/// A transformer that writes down what it was handed and adds one to every
/// sample; it gives nothing for a buffer that starts with 666.
struct PlusOne {
    inputs: Mutex<Vec<(Vec<u32>, usize, usize)>>,
}

impl SampleTransformer for PlusOne {
    fn transform(
        &self,
        samples: &AudioSamples,
        sample_rate: usize,
        num_channels: usize,
        _rate: Option<u32>,
        _volume: Option<u32>,
        _pitch: Option<u32>,
    ) -> AudioSamples {
        let input = samples.clone().into_vec();
        self.inputs.lock().unwrap().push((input.clone(), sample_rate, num_channels));
        if input[0] == 666 {
            return AudioSamples::new(Vec::new());
        }
        AudioSamples::new(input.into_iter().map(|sample| sample + 1).collect())
    }
}

type Stream = RealtimeSpeechStream<ChunkedModel, PlusOne>;

struct Setup {
    model: Arc<ChunkedModel>,
    transformer: Arc<PlusOne>,
    synth: PiperSpeechSynthesizer<ChunkedModel, PlusOne>,
}

fn setup(script: Vec<(&str, PiperResult<Vec<PiperResult<AudioSamples>>>)>) -> Setup {
    let model = Arc::new(ChunkedModel::new(script));
    let transformer = Arc::new(PlusOne { inputs: Mutex::new(Vec::new()) });
    let synth = PiperSpeechSynthesizer::new(Arc::clone(&model), Arc::clone(&transformer)).unwrap();
    Setup { model, transformer, synth }
}

fn plain() -> Option<AudioOutputConfig> {
    None
}

fn config(pitch: bool, appended_silence_ms: Option<u32>) -> Option<AudioOutputConfig> {
    Some(AudioOutputConfig {
        rate: None,
        volume: None,
        pitch: if pitch { Some(1.25f32.to_bits()) } else { None },
        appended_silence_ms,
    })
}

/// Drives a stream as a background worker does, with a consumer that goes
/// away after `patience` items, if it has a patience.
fn drive(stream: &mut Stream, patience: Option<usize>) -> Vec<PiperResult<AudioSamples>> {
    let mut sent = Vec::new();
    loop {
        match stream.advance() {
            StreamStep::Stream(chunks) => {
                for chunk in chunks {
                    let (item, last) = match stream.push_chunk(chunk) {
                        ChunkStep::Deliver(samples) => (Ok(samples), false),
                        ChunkStep::Fail(error) => (Err(error), true),
                        ChunkStep::Skip => return sent,
                    };
                    if patience == Some(sent.len()) {
                        stream.cancel();
                        return sent;
                    }
                    sent.push(item);
                    if last {
                        return sent;
                    }
                }
                stream.end_unit();
            },
            StreamStep::Last(item) => {
                if patience != Some(sent.len()) {
                    sent.push(item);
                }
                return sent;
            },
            StreamStep::Close => return sent,
        }
    }
}

#[test]
fn growth_factor_is_one() {
    assert_eq!(CHUNK_GROWTH_FACTOR, 1);
}

#[test]
fn chunk_size_is_base_times_chunks_delivered() {
    assert_eq!(chunk_size_for(10, 0), 10);
    assert_eq!(chunk_size_for(10, 1), 10);
    assert_eq!(chunk_size_for(10, 2), 20);
    assert_eq!(chunk_size_for(45, 7), 315);
    assert_eq!(chunk_size_for(0, 7), 0);
    assert_eq!(chunk_size_for(0, 0), 0);
}

#[test]
fn chunk_size_stops_at_the_largest_size() {
    assert_eq!(chunk_size_for(usize::MAX, 2), usize::MAX);
    assert_eq!(chunk_size_for(usize::MAX / 2 + 1, 2), usize::MAX);
    assert_eq!(chunk_size_for(usize::MAX / 2, 2), usize::MAX - 1);
    assert_eq!(chunk_size_for(usize::MAX, 1), usize::MAX);
}

#[test]
fn chunk_size_never_shrinks_as_chunks_are_delivered() {
    for base in [0, 1, 3, 100, usize::MAX / 3, usize::MAX] {
        let mut last = chunk_size_for(base, 0);
        for emitted in [0, 1, 2, 3, 4, 10, 1000, usize::MAX] {
            let size = chunk_size_for(base, emitted);
            assert!(size >= last);
            last = size;
        }
    }
}

#[test]
fn stream_starts_before_its_first_unit() {
    let setup = setup(vec![]);
    let stream = setup.synth.synthesize_streamed("ab".to_string(), plain(), 10, 3).unwrap();
    assert_eq!(stream.phase(), StreamPhase::StreamingUnit(0));
    assert_eq!(stream.chunks_emitted(), 0);
    assert!(setup.model.requests().is_empty());
}

#[test]
fn stream_fails_before_any_chunk_when_the_text_cannot_be_phonemized() {
    let setup = setup(vec![]);
    let made = setup.synth.synthesize_streamed("?ab".to_string(), plain(), 10, 3);
    assert_eq!(made.err(), Some(PiperError::ModelError("cannot phonemize".to_string())));
    assert!(setup.model.requests().is_empty());
}

#[test]
fn chunks_are_delivered_in_order_within_and_across_units() {
    let setup = setup(vec![
        ("a", Ok(vec![chunk(10, 2), chunk(20, 1)])),
        ("b", Ok(vec![chunk(30, 3)])),
    ]);
    let mut stream = setup.synth.synthesize_streamed("ab".to_string(), plain(), 10, 3).unwrap();
    assert_eq!(drive(&mut stream, None), vec![chunk(10, 2), chunk(20, 1), chunk(30, 3)]);
    assert_eq!(stream.phase(), StreamPhase::Closed);
    assert_eq!(stream.chunks_emitted(), 3);
}

#[test]
fn requested_chunk_size_grows_with_the_chunks_delivered() {
    let setup = setup(vec![
        ("a", Ok(vec![chunk(0, 1), chunk(0, 1)])),
        ("b", Ok(vec![chunk(0, 1), chunk(0, 1), chunk(0, 1)])),
        ("c", Ok(vec![])),
        ("d", Ok(vec![chunk(0, 1)])),
    ]);
    let mut stream = setup.synth.synthesize_streamed("abcd".to_string(), plain(), 10, 3).unwrap();
    drive(&mut stream, None);
    assert_eq!(
        setup.model.requests(),
        vec![
            ("a".to_string(), 10, 3),
            ("b".to_string(), 20, 3),
            ("c".to_string(), 50, 3),
            ("d".to_string(), 50, 3),
        ]
    );
    let sizes: Vec<usize> = setup.model.requests().iter().map(|request| request.1).collect();
    assert!(sizes.windows(2).all(|pair| pair[0] <= pair[1]));
}

#[test]
fn base_size_is_requested_until_a_chunk_was_delivered() {
    let setup = setup(vec![("a", Ok(vec![])), ("b", Ok(vec![chunk(0, 1)])), ("c", Ok(vec![]))]);
    let mut stream = setup.synth.synthesize_streamed("abc".to_string(), plain(), 7, 0).unwrap();
    drive(&mut stream, None);
    assert_eq!(
        setup.model.requests(),
        vec![("a".to_string(), 7, 0), ("b".to_string(), 7, 0), ("c".to_string(), 7, 0)]
    );
}

#[test]
fn chunks_are_post_processed_in_the_models_format() {
    let setup = setup(vec![("a", Ok(vec![chunk(10, 2), chunk(20, 1)]))]);
    let mut stream =
        setup.synth.synthesize_streamed("a".to_string(), config(true, None), 10, 3).unwrap();
    assert_eq!(drive(&mut stream, None), vec![chunk(11, 2), chunk(21, 1)]);
    assert_eq!(
        *setup.transformer.inputs.lock().unwrap(),
        vec![(vec![10, 11], 22050, 1), (vec![20], 22050, 1)]
    );
}

#[test]
fn trailing_silence_is_the_last_item_after_the_last_unit() {
    let setup = setup(vec![("a", Ok(vec![chunk(10, 2)])), ("b", Ok(vec![chunk(20, 1)]))]);
    let mut stream =
        setup.synth.synthesize_streamed("ab".to_string(), config(false, Some(500)), 10, 3).unwrap();
    let sent = drive(&mut stream, None);
    assert_eq!(sent.len(), 3);
    assert_eq!(sent[0], chunk(10, 2));
    assert_eq!(sent[1], chunk(20, 1));
    assert_eq!(sent[2], Ok(AudioSamples::new(vec![0u32; 11025])));
    assert_eq!(stream.chunks_emitted(), 2);
    assert_eq!(stream.phase(), StreamPhase::Closed);
}

#[test]
fn trailing_silence_takes_the_transform_path() {
    let setup = setup(vec![("a", Ok(vec![chunk(10, 2)]))]);
    let mut stream =
        setup.synth.synthesize_streamed("a".to_string(), config(true, Some(500)), 10, 3).unwrap();
    let sent = drive(&mut stream, None);
    assert_eq!(sent, vec![chunk(11, 2), Ok(AudioSamples::new(vec![1u32; 11025]))]);
    let inputs = setup.transformer.inputs.lock().unwrap();
    assert_eq!(inputs.len(), 2);
    assert_eq!(inputs[1], (vec![0u32; 11025], 22050, 1));
}

#[test]
fn phases_follow_each_other() {
    let setup = setup(vec![("a", Ok(vec![chunk(1, 1)])), ("b", Ok(vec![]))]);
    let mut stream =
        setup.synth.synthesize_streamed("ab".to_string(), config(false, Some(1)), 10, 3).unwrap();
    assert_eq!(stream.phase(), StreamPhase::StreamingUnit(0));
    assert!(matches!(stream.advance(), StreamStep::Stream(_)));
    assert_eq!(stream.phase(), StreamPhase::StreamingUnit(0));
    assert!(matches!(stream.push_chunk(chunk(1, 1)), ChunkStep::Deliver(_)));
    stream.end_unit();
    assert_eq!(stream.phase(), StreamPhase::StreamingUnit(1));
    stream.end_unit();
    assert_eq!(stream.phase(), StreamPhase::AppendingSilence);
    stream.end_unit();
    assert_eq!(stream.phase(), StreamPhase::AppendingSilence);
    assert!(matches!(stream.push_chunk(chunk(1, 1)), ChunkStep::Skip));
    match stream.advance() {
        StreamStep::Last(item) => assert_eq!(item, Ok(AudioSamples::new(vec![0u32; 22]))),
        _ => panic!("the silence was due"),
    }
    assert_eq!(stream.phase(), StreamPhase::Closed);
    assert!(matches!(stream.advance(), StreamStep::Close));
    assert_eq!(stream.phase(), StreamPhase::Closed);
    assert_eq!(stream.chunks_emitted(), 1);
}

#[test]
fn stream_without_silence_is_done_after_its_last_unit() {
    for output_config in [plain(), config(true, None)] {
        let setup = setup(vec![("a", Ok(vec![]))]);
        let mut stream = setup.synth.synthesize_streamed("a".to_string(), output_config, 10, 3).unwrap();
        stream.end_unit();
        assert_eq!(stream.phase(), StreamPhase::Done);
        assert!(matches!(stream.advance(), StreamStep::Close));
        assert_eq!(stream.phase(), StreamPhase::Closed);
    }
}

#[test]
fn stream_of_no_units_delivers_nothing() {
    let setup = setup(vec![]);
    let mut stream =
        setup.synth.synthesize_streamed(String::new(), config(true, Some(500)), 10, 3).unwrap();
    assert_eq!(stream.phase(), StreamPhase::Done);
    assert_eq!(drive(&mut stream, None), vec![]);
    assert_eq!(stream.phase(), StreamPhase::Closed);
    assert!(setup.transformer.inputs.lock().unwrap().is_empty());
}

#[test]
fn failed_chunk_is_the_last_item() {
    let setup = setup(vec![
        ("a", Ok(vec![chunk(10, 2), Err(hiccup()), chunk(20, 1)])),
        ("b", Ok(vec![chunk(30, 3)])),
    ]);
    let mut stream =
        setup.synth.synthesize_streamed("ab".to_string(), config(true, Some(500)), 10, 3).unwrap();
    assert_eq!(drive(&mut stream, None), vec![chunk(11, 2), Err(hiccup())]);
    assert_eq!(stream.phase(), StreamPhase::Closed);
    assert_eq!(stream.chunks_emitted(), 1);
    assert_eq!(setup.model.requests().len(), 1);
    assert!(matches!(stream.push_chunk(chunk(20, 1)), ChunkStep::Skip));
    assert!(matches!(stream.advance(), StreamStep::Close));
}

#[test]
fn chunk_that_cannot_be_transformed_is_the_last_item() {
    let setup = setup(vec![("a", Ok(vec![chunk(10, 2), chunk(666, 1), chunk(20, 1)]))]);
    let mut stream =
        setup.synth.synthesize_streamed("a".to_string(), config(true, None), 10, 3).unwrap();
    assert_eq!(drive(&mut stream, None), vec![chunk(11, 2), Err(PiperError::TransformError)]);
    assert_eq!(stream.phase(), StreamPhase::Closed);
}

#[test]
fn unit_that_cannot_be_streamed_ends_the_stream_with_its_error() {
    let setup = setup(vec![("a", Ok(vec![chunk(10, 2)])), ("b", Err(hiccup())), ("c", Ok(vec![]))]);
    let mut stream =
        setup.synth.synthesize_streamed("abc".to_string(), config(false, Some(500)), 10, 3).unwrap();
    assert_eq!(drive(&mut stream, None), vec![chunk(10, 2), Err(hiccup())]);
    assert_eq!(stream.phase(), StreamPhase::Closed);
    assert_eq!(setup.model.requests().len(), 2);
}

#[test]
fn consumer_that_goes_away_ends_the_work() {
    let setup = setup(vec![
        ("a", Ok(vec![chunk(10, 2), chunk(20, 1)])),
        ("b", Ok(vec![chunk(30, 3)])),
    ]);
    let mut stream =
        setup.synth.synthesize_streamed("ab".to_string(), config(false, Some(500)), 10, 3).unwrap();
    assert_eq!(drive(&mut stream, Some(1)), vec![chunk(10, 2)]);
    assert_eq!(stream.phase(), StreamPhase::Closed);
    assert_eq!(setup.model.requests().len(), 1);
    assert!(matches!(stream.advance(), StreamStep::Close));
    assert!(matches!(stream.push_chunk(chunk(30, 3)), ChunkStep::Skip));
}

#[test]
fn empty_chunk_is_delivered_and_counted() {
    let setup = setup(vec![("a", Ok(vec![chunk(0, 0), chunk(5, 1)]))]);
    let mut stream =
        setup.synth.synthesize_streamed("a".to_string(), config(true, None), 10, 3).unwrap();
    assert_eq!(drive(&mut stream, None), vec![chunk(0, 0), chunk(6, 1)]);
    assert_eq!(stream.chunks_emitted(), 2);
    assert_eq!(setup.transformer.inputs.lock().unwrap().len(), 1);
}

/// Works a stream off onto a channel, as a background worker does.
fn work(stream: &mut Stream, tx: flume::Sender<PiperResult<AudioSamples>>) {
    while let Some(chunks) = stream.next_unit(&tx) {
        for chunk in chunks {
            if !stream.forward_chunk(&tx, chunk) {
                return;
            }
        }
        stream.end_unit();
    }
}

#[test]
fn channel_gets_every_item_in_order_and_is_closed() {
    let setup = setup(vec![
        ("a", Ok(vec![chunk(10, 2), chunk(20, 1)])),
        ("b", Ok(vec![chunk(30, 3)])),
    ]);
    let mut stream =
        setup.synth.synthesize_streamed("ab".to_string(), config(true, Some(500)), 10, 3).unwrap();
    let (tx, rx) = flume::unbounded();
    work(&mut stream, tx);
    let received: Vec<_> = rx.iter().collect();
    assert_eq!(
        received,
        vec![chunk(11, 2), chunk(21, 1), chunk(31, 3), Ok(AudioSamples::new(vec![1u32; 11025]))]
    );
    assert_eq!(stream.phase(), StreamPhase::Closed);
    assert_eq!(stream.chunks_emitted(), 3);
    assert_eq!(
        setup.model.requests(),
        vec![("a".to_string(), 10, 3), ("b".to_string(), 20, 3)]
    );
}

#[test]
fn channel_gets_a_failure_as_its_last_item() {
    let setup = setup(vec![
        ("a", Ok(vec![chunk(10, 2), Err(hiccup()), chunk(20, 1)])),
        ("b", Ok(vec![chunk(30, 3)])),
    ]);
    let mut stream =
        setup.synth.synthesize_streamed("ab".to_string(), config(false, Some(500)), 10, 3).unwrap();
    let (tx, rx) = flume::unbounded();
    work(&mut stream, tx);
    assert_eq!(rx.iter().collect::<Vec<_>>(), vec![chunk(10, 2), Err(hiccup())]);
    assert_eq!(stream.phase(), StreamPhase::Closed);
    assert_eq!(setup.model.requests().len(), 1);
}

#[test]
fn channel_gets_the_error_of_a_unit_that_cannot_be_streamed() {
    let setup = setup(vec![("a", Err(hiccup())), ("b", Ok(vec![chunk(30, 3)]))]);
    let mut stream = setup.synth.synthesize_streamed("ab".to_string(), plain(), 10, 3).unwrap();
    let (tx, rx) = flume::unbounded();
    assert!(stream.next_unit(&tx).is_none());
    drop(tx);
    assert_eq!(rx.iter().collect::<Vec<_>>(), vec![Err(hiccup())]);
    assert_eq!(stream.phase(), StreamPhase::Closed);
}

#[test]
fn dropped_consumer_stops_the_work_without_a_fault() {
    let setup = setup(vec![
        ("a", Ok(vec![chunk(10, 2), chunk(20, 1)])),
        ("b", Ok(vec![chunk(30, 3)])),
    ]);
    let mut stream =
        setup.synth.synthesize_streamed("ab".to_string(), config(true, Some(500)), 10, 3).unwrap();
    let (tx, rx) = flume::unbounded();
    drop(rx);
    work(&mut stream, tx);
    assert_eq!(stream.phase(), StreamPhase::Closed);
    assert_eq!(setup.model.requests().len(), 1);
    assert_eq!(setup.transformer.inputs.lock().unwrap().len(), 1);
}

#[test]
fn forwarding_tells_the_worker_when_to_stop() {
    let setup = setup(vec![("a", Ok(vec![]))]);
    let mut stream = setup.synth.synthesize_streamed("a".to_string(), plain(), 10, 3).unwrap();
    let (tx, rx) = flume::unbounded();
    assert!(stream.next_unit(&tx).is_some());
    assert!(stream.forward_chunk(&tx, chunk(1, 1)));
    assert!(!stream.forward_chunk(&tx, Err(hiccup())));
    assert!(!stream.forward_chunk(&tx, chunk(2, 1)));
    assert!(stream.next_unit(&tx).is_none());
    drop(tx);
    assert_eq!(rx.iter().collect::<Vec<_>>(), vec![chunk(1, 1), Err(hiccup())]);
}

#[test]
fn samples_that_the_channel_took_let_the_work_go_on() {
    let setup = setup(vec![("a", Ok(vec![]))]);
    let mut stream =
        setup.synth.synthesize_streamed("ab".to_string(), config(true, Some(500)), 10, 3).unwrap();
    assert!(stream.sent(true));
    assert_eq!(stream.phase(), StreamPhase::StreamingUnit(0));
    assert_eq!(stream.chunks_emitted(), 0);
    stream.end_unit();
    assert!(stream.sent(true));
    assert_eq!(stream.phase(), StreamPhase::StreamingUnit(1));
}

#[test]
fn samples_that_the_channel_refused_close_the_stream() {
    let setup = setup(vec![("a", Ok(vec![]))]);
    let mut stream =
        setup.synth.synthesize_streamed("ab".to_string(), config(true, Some(500)), 10, 3).unwrap();
    assert!(!stream.sent(false));
    assert_eq!(stream.phase(), StreamPhase::Closed);
    assert!(matches!(stream.advance(), StreamStep::Close));
    assert!(matches!(stream.push_chunk(chunk(1, 1)), ChunkStep::Skip));
    assert!(setup.model.requests().is_empty());
    assert!(setup.transformer.inputs.lock().unwrap().is_empty());
    assert!(!stream.sent(false));
    assert!(stream.sent(true));
    assert_eq!(stream.phase(), StreamPhase::Closed);
}

#[test]
fn consumer_that_leaves_in_the_middle_gets_no_further_work_done() {
    let setup = setup(vec![
        ("a", Ok(vec![chunk(10, 2), chunk(20, 1), chunk(30, 1)])),
        ("b", Ok(vec![chunk(40, 3)])),
    ]);
    let mut stream =
        setup.synth.synthesize_streamed("ab".to_string(), config(true, Some(500)), 10, 3).unwrap();
    let (tx, rx) = flume::unbounded();
    let mut chunks = stream.next_unit(&tx).unwrap();
    assert!(stream.forward_chunk(&tx, chunks.next().unwrap()));
    assert_eq!(rx.recv(), Ok(chunk(11, 2)));
    drop(rx);
    assert!(!stream.forward_chunk(&tx, chunks.next().unwrap()));
    assert_eq!(stream.phase(), StreamPhase::Closed);
    assert!(!stream.forward_chunk(&tx, chunks.next().unwrap()));
    assert!(stream.next_unit(&tx).is_none());
    assert_eq!(setup.model.requests().len(), 1);
    assert_eq!(setup.transformer.inputs.lock().unwrap().len(), 2);
}
