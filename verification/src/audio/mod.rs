//! The integer side of the audio pipeline: errors, sample conversion and
//! interleaving, the in-memory stream source, and the decisions of the
//! decode, write and playback loops.

pub mod error;
pub mod sample_converter;
pub mod stream_wrapper;
pub mod alsa_handler;
pub mod alsa_writer;
pub mod processor;
pub mod loop_runner;
pub mod decoder;

pub use error::AudioError;
