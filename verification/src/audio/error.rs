//! Errors of audio playback.

use vstd::prelude::*;
use crate::text::concat2;

verus! {

/// Error types specific to audio playback. Causes that come from other
/// libraries are carried as their messages.
#[derive(Debug, Clone, PartialEq)]
pub enum AudioError {
    AlsaError(String),
    StreamError(String),
    DecodingError(String),
    SymphoniaError(String),
    IoError(String),
    NetworkError(String),
    InvalidState(String),
    UnsupportedFormat(String),
    MissingCodecParams(&'static str),
    TaskJoinError(String),
    InitializationError(String),
    PlaybackError(String),
    ResamplingError(String),
    UnsupportedOperation(String),
    ShutdownRequested,
    EmptyStream,
}

/// The message of an audio error: a fixed prefix per kind, then the cause.
pub open spec fn audio_error_message(e: AudioError) -> Seq<char> {
    match e {
        AudioError::AlsaError(s) => "ALSA error: "@ + s@,
        AudioError::StreamError(s) => "Streaming error: "@ + s@,
        AudioError::DecodingError(s) => "Decoding error: "@ + s@,
        AudioError::SymphoniaError(s) => "Symphonia error: "@ + s@,
        AudioError::IoError(s) => "I/O error: "@ + s@,
        AudioError::NetworkError(s) => "Network error: "@ + s@,
        AudioError::InvalidState(s) => "Invalid state: "@ + s@,
        AudioError::UnsupportedFormat(s) => "Unsupported format: "@ + s@,
        AudioError::MissingCodecParams(s) => "Missing codec parameters: "@ + s@,
        AudioError::TaskJoinError(s) => "Async task join error: "@ + s@,
        AudioError::InitializationError(s) => "Initialization error: "@ + s@,
        AudioError::PlaybackError(s) => "Playback error: "@ + s@,
        AudioError::ResamplingError(s) => "Resampling error: "@ + s@,
        AudioError::UnsupportedOperation(s) => "Unsupported operation: "@ + s@,
        AudioError::ShutdownRequested => "Shutdown requested"@,
        AudioError::EmptyStream => "Empty stream"@,
    }
}

impl AudioError {
    /// The human-readable message of this error.
    pub fn message(&self) -> (r: String)
        ensures
            r@ == audio_error_message(*self),
    {
        match self {
            AudioError::AlsaError(s) => concat2("ALSA error: ", s.as_str()),
            AudioError::StreamError(s) => concat2("Streaming error: ", s.as_str()),
            AudioError::DecodingError(s) => concat2("Decoding error: ", s.as_str()),
            AudioError::SymphoniaError(s) => concat2("Symphonia error: ", s.as_str()),
            AudioError::IoError(s) => concat2("I/O error: ", s.as_str()),
            AudioError::NetworkError(s) => concat2("Network error: ", s.as_str()),
            AudioError::InvalidState(s) => concat2("Invalid state: ", s.as_str()),
            AudioError::UnsupportedFormat(s) => concat2("Unsupported format: ", s.as_str()),
            AudioError::MissingCodecParams(s) => concat2("Missing codec parameters: ", *s),
            AudioError::TaskJoinError(s) => concat2("Async task join error: ", s.as_str()),
            AudioError::InitializationError(s) => concat2("Initialization error: ", s.as_str()),
            AudioError::PlaybackError(s) => concat2("Playback error: ", s.as_str()),
            AudioError::ResamplingError(s) => concat2("Resampling error: ", s.as_str()),
            AudioError::UnsupportedOperation(s) => concat2("Unsupported operation: ", s.as_str()),
            AudioError::ShutdownRequested => crate::text::owned("Shutdown requested"),
            AudioError::EmptyStream => crate::text::owned("Empty stream"),
        }
    }
}

} // verus!
