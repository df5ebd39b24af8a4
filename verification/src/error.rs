//! The error type shared by every layer of the synthesis pipeline.

use vstd::prelude::*;

verus! {

/// What can go wrong while text is turned into audio.
#[derive(Debug, Clone, PartialEq, Eq)]
pub enum PiperError {
    /// The speech model reported a failure (phonemization or synthesis). The
    /// message is the model's own and is carried through unchanged.
    ModelError(String),
    /// The configured rate, volume and pitch cannot be applied to the samples.
    TransformError,
    /// Synthesis of a whole utterance produced no samples at all.
    EmptyOutputError,
}

pub type PiperResult<V> = Result<V, PiperError>;

impl PiperError {
    /// The text that `message` returns.
    pub open spec fn message_text(&self) -> Seq<char> {
        match self {
            PiperError::ModelError(reason) => reason@,
            PiperError::TransformError =>
                "Sonic Error: failed to apply audio config. Invalid parameter value for rate, volume, or pitch"@,
            PiperError::EmptyOutputError => "No speech data to write"@,
        }
    }

    /// A human-readable description of the error.
    pub fn message(&self) -> (text: String)
        ensures
            text@ == self.message_text(),
    {
        match self {
            PiperError::ModelError(reason) => reason.clone(),
            PiperError::TransformError =>
                "Sonic Error: failed to apply audio config. Invalid parameter value for rate, volume, or pitch".to_owned(),
            PiperError::EmptyOutputError => "No speech data to write".to_owned(),
        }
    }
}

} // verus!
