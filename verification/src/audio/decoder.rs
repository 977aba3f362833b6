//! The decisions of the packet decoder.
//!
//! Decoding a frame alternates work on the format reader and the codec
//! (each run as a blocking task raced against the shutdown signal) with
//! decisions about what came back. The reader and the codec are moved into
//! each task and come back with its result; a task that is abandoned or
//! fails keeps what was moved into it. The session below tracks which of
//! the two are held, which track is decoded and the signal shape known so
//! far, and turns each result into the next step.

use vstd::prelude::*;
use crate::audio::error::AudioError;
use crate::text::owned;

verus! {

/// The kind of an I/O failure, as far as the decoder tells kinds apart.
#[derive(Debug, Clone, Copy, PartialEq, Eq, Structural)]
pub enum IoKind {
    UnexpectedEof,
    Interrupted,
    Other,
}

/// A failure reported by the media framework, with its message.
#[derive(Debug, Clone, PartialEq)]
pub enum MediaFailure {
    Io(IoKind, String),
    Decode(String),
    Unsupported(String),
    ResetRequired(String),
    Other(String),
}

/// What polling the shutdown channel without waiting gave.
#[derive(Debug, Clone, Copy, PartialEq, Eq, Structural)]
pub enum ShutdownPoll {
    Received,
    Empty,
    Lagged,
    Closed,
}

/// Whether a poll of the shutdown channel stops reading: a signal or a
/// closed channel stops it; an empty or lagged channel does not.
pub fn shutdown_requested(p: ShutdownPoll) -> (r: bool)
    ensures
        r == (p == ShutdownPoll::Received || p == ShutdownPoll::Closed),
{
    match p {
        ShutdownPoll::Received => true,
        ShutdownPoll::Closed => true,
        _ => false,
    }
}

/// How one packet read ended.
#[derive(Debug, Clone, PartialEq)]
pub enum ReadResult {
    /// The shutdown channel was signalled or closed before the read.
    ShutdownBeforeRead,
    /// The shutdown signal won the race against the read.
    ShutdownDuringRead,
    /// The read task failed to complete, with its message.
    ReadTaskFailed(String),
    /// The reader returned a packet of `track_id` stamped `ts`.
    Packet { track_id: u32, ts: u64 },
    /// The reader returned a failure.
    ReaderFailed(MediaFailure),
}

/// How one decode ended.
#[derive(Debug, Clone, PartialEq)]
pub enum DecodeResult {
    /// The shutdown signal won the race against the decode.
    ShutdownDuringDecode,
    /// The decode task failed to complete, with its message.
    DecodeTaskFailed(String),
    /// The codec produced a frame whose signal has `channels` channels at `rate`.
    Decoded { rate: u32, channels: usize },
    /// The codec returned a failure.
    CodecFailed(MediaFailure),
}

/// The outcome of decoding the next frame, without the frame itself.
#[derive(Debug, Clone, PartialEq)]
pub enum FrameOutcome {
    /// A frame was decoded; the caller hands it on with this timestamp.
    Decoded(u64),
    EndOfStream,
    Skipped(String),
    Shutdown,
}

/// What to do after a packet read.
#[derive(Debug)]
pub enum ReadStep {
    /// Decode the packet.
    Decode { ts: u64 },
    /// The packet belongs to another track: read the next one.
    NextPacket,
    /// Stop with this result.
    Finish(Result<FrameOutcome, AudioError>),
}

/// What to do after a decode.
#[derive(Debug)]
pub enum DecodeStep {
    /// The packet could not be decoded: read the next one.
    NextPacket,
    /// Stop with this result.
    Finish(Result<FrameOutcome, AudioError>),
}

/// The signal description known to the decoder.
#[derive(Debug, Clone, Copy, PartialEq, Eq, Structural)]
pub struct SignalShape {
    pub rate: u32,
    pub channels: usize,
}

/// The error for a media failure: its message as a framework error.
pub open spec fn media_error(f: MediaFailure) -> AudioError {
    match f {
        MediaFailure::Io(_, m) => AudioError::SymphoniaError(m),
        MediaFailure::Decode(m) => AudioError::SymphoniaError(m),
        MediaFailure::Unsupported(m) => AudioError::SymphoniaError(m),
        MediaFailure::ResetRequired(m) => AudioError::SymphoniaError(m),
        MediaFailure::Other(m) => AudioError::SymphoniaError(m),
    }
}

fn media_error_of(f: MediaFailure) -> (e: AudioError)
    ensures
        e == media_error(f),
{
    match f {
        MediaFailure::Io(_, m) => AudioError::SymphoniaError(m),
        MediaFailure::Decode(m) => AudioError::SymphoniaError(m),
        MediaFailure::Unsupported(m) => AudioError::SymphoniaError(m),
        MediaFailure::ResetRequired(m) => AudioError::SymphoniaError(m),
        MediaFailure::Other(m) => AudioError::SymphoniaError(m),
    }
}

/// The decoder's state between tasks.
pub struct DecodeSession {
    has_reader: bool,
    has_codec: bool,
    track_id: u32,
    spec: Option<SignalShape>,
}

impl DecodeSession {
    /// Whether the format reader is held.
    pub closed spec fn reader_held(&self) -> bool {
        self.has_reader
    }

    /// Whether the codec is held.
    pub closed spec fn codec_held(&self) -> bool {
        self.has_codec
    }

    /// The track whose packets are decoded.
    pub closed spec fn track(&self) -> u32 {
        self.track_id
    }

    /// The signal description known so far.
    pub closed spec fn shape(&self) -> Option<SignalShape> {
        self.spec
    }

    /// A session holding its reader and codec, for `track_id`, with the
    /// signal description that the track's parameters gave.
    pub fn new(track_id: u32, spec: Option<SignalShape>) -> (s: DecodeSession)
        ensures
            s.reader_held(),
            s.codec_held(),
            s.track() == track_id,
            s.shape() == spec,
    {
        DecodeSession { has_reader: true, has_codec: true, track_id, spec }
    }

    /// The signal description known so far.
    pub fn current_spec(&self) -> (r: Option<SignalShape>)
        ensures
            r == self.shape(),
    {
        self.spec
    }

    /// Hands out the reader and codec for a read: fails when either was
    /// lost, the reader being checked first.
    pub fn begin(&mut self) -> (r: Result<(), AudioError>)
        ensures
            final(self).track() == old(self).track(),
            final(self).shape() == old(self).shape(),
            !old(self).reader_held() ==> (r matches Err(AudioError::InvalidState(m))
                && m@ == "Format reader not available"@) && *final(self) == *old(self),
            old(self).reader_held() && !old(self).codec_held() ==> (r matches Err(
                AudioError::InvalidState(m),
            ) && m@ == "Decoder not available"@) && !final(self).reader_held()
                && !final(self).codec_held(),
            old(self).reader_held() && old(self).codec_held() ==> r is Ok
                && !final(self).reader_held() && !final(self).codec_held(),
    {
        if !self.has_reader {
            return Err(AudioError::InvalidState(owned("Format reader not available")));
        }
        self.has_reader = false;
        if !self.has_codec {
            return Err(AudioError::InvalidState(owned("Decoder not available")));
        }
        self.has_codec = false;
        Ok(())
    }

    /// Takes the result of a packet read. A packet of another track is
    /// passed over; a packet of the track is decoded next; the end of the
    /// stream or a shutdown signal before the read gives the reader and
    /// codec back and stops; a shutdown during the read or a failed task
    /// loses both; a reader failure ends the stream at the end of the input (giving both back), is a shutdown on an
    /// interruption, skips with a discontinuity note on a required reset and
    /// is an error otherwise (losing both).
    pub fn after_read(&mut self, r: ReadResult) -> (s: ReadStep)
        requires
            !old(self).reader_held(),
            !old(self).codec_held(),
        ensures
            final(self).track() == old(self).track(),
            final(self).shape() == old(self).shape(),
            match r {
                ReadResult::ShutdownBeforeRead => s == ReadStep::Finish(Ok(FrameOutcome::Shutdown))
                    && final(self).reader_held() && final(self).codec_held(),
                ReadResult::ShutdownDuringRead => s == ReadStep::Finish(Ok(FrameOutcome::Shutdown))
                    && !final(self).reader_held() && !final(self).codec_held(),
                ReadResult::ReadTaskFailed(m) => s == ReadStep::Finish(
                    Err(AudioError::TaskJoinError(m)),
                ) && !final(self).reader_held() && !final(self).codec_held(),
                ReadResult::Packet { track_id, ts } => !final(self).reader_held()
                    && !final(self).codec_held() && if track_id == old(self).track() {
                    s == ReadStep::Decode { ts }
                } else {
                    s == ReadStep::NextPacket
                },
                ReadResult::ReaderFailed(f) => match f {
                    MediaFailure::Io(IoKind::UnexpectedEof, _) => s == ReadStep::Finish(
                        Ok(FrameOutcome::EndOfStream),
                    ) && final(self).reader_held() && final(self).codec_held(),
                    MediaFailure::Io(IoKind::Interrupted, _) => s == ReadStep::Finish(
                        Ok(FrameOutcome::Shutdown),
                    ) && !final(self).reader_held() && !final(self).codec_held(),
                    MediaFailure::ResetRequired(_) => (s matches ReadStep::Finish(
                        Ok(FrameOutcome::Skipped(m)),
                    ) && m@ == "Stream discontinuity (ResetRequired)"@) && !final(self).reader_held()
                        && !final(self).codec_held(),
                    _ => s == ReadStep::Finish(Err(media_error(f))) && !final(self).reader_held()
                        && !final(self).codec_held(),
                },
            },
    {
        match r {
            ReadResult::ShutdownBeforeRead => {
                self.has_reader = true;
                self.has_codec = true;
                ReadStep::Finish(Ok(FrameOutcome::Shutdown))
            },
            ReadResult::ShutdownDuringRead => ReadStep::Finish(Ok(FrameOutcome::Shutdown)),
            ReadResult::ReadTaskFailed(m) => ReadStep::Finish(Err(AudioError::TaskJoinError(m))),
            ReadResult::Packet { track_id, ts } => {
                if track_id == self.track_id {
                    ReadStep::Decode { ts }
                } else {
                    ReadStep::NextPacket
                }
            },
            ReadResult::ReaderFailed(f) => {
                match f {
                    MediaFailure::Io(IoKind::UnexpectedEof, _) => {
                        self.has_reader = true;
                        self.has_codec = true;
                        ReadStep::Finish(Ok(FrameOutcome::EndOfStream))
                    },
                    MediaFailure::Io(IoKind::Interrupted, _) => ReadStep::Finish(Ok(FrameOutcome::Shutdown)),
                    MediaFailure::ResetRequired(_) => ReadStep::Finish(
                        Ok(FrameOutcome::Skipped(owned("Stream discontinuity (ResetRequired)"))),
                    ),
                    _ => ReadStep::Finish(Err(media_error_of(f))),
                }
            },
        }
    }

    /// Takes the result of decoding the packet stamped `ts`. A decoded
    /// frame gives both back, completes a signal description that had no
    /// channels from the frame's own (when it has channels), and is the
    /// result; a decode failure passes over the packet; an unsupported
    /// format or another codec failure gives both back and is an error; a
    /// shutdown during the decode or a failed task gives the reader back
    /// and loses the codec.
    pub fn after_decode(&mut self, ts: u64, r: DecodeResult) -> (s: DecodeStep)
        requires
            !old(self).reader_held(),
            !old(self).codec_held(),
        ensures
            final(self).track() == old(self).track(),
            match r {
                DecodeResult::ShutdownDuringDecode => s == DecodeStep::Finish(
                    Ok(FrameOutcome::Shutdown),
                ) && final(self).reader_held() && !final(self).codec_held()
                    && final(self).shape() == old(self).shape(),
                DecodeResult::DecodeTaskFailed(m) => s == DecodeStep::Finish(
                    Err(AudioError::TaskJoinError(m)),
                ) && final(self).reader_held() && !final(self).codec_held()
                    && final(self).shape() == old(self).shape(),
                DecodeResult::Decoded { rate, channels } => {
                    &&& s == DecodeStep::Finish(Ok(FrameOutcome::Decoded(ts)))
                    &&& final(self).reader_held() && final(self).codec_held()
                    &&& final(self).shape() == completed_shape(old(self).shape(), rate, channels)
                },
                DecodeResult::CodecFailed(f) => final(self).shape() == old(self).shape() && match f {
                    MediaFailure::Decode(_) => s == DecodeStep::NextPacket
                        && !final(self).reader_held() && !final(self).codec_held(),
                    MediaFailure::Unsupported(m) => s == DecodeStep::Finish(
                        Err(AudioError::UnsupportedFormat(m)),
                    ) && final(self).reader_held() && final(self).codec_held(),
                    _ => s == DecodeStep::Finish(Err(media_error(f))) && final(self).reader_held()
                        && final(self).codec_held(),
                },
            },
    {
        match r {
            DecodeResult::ShutdownDuringDecode => {
                self.has_reader = true;
                DecodeStep::Finish(Ok(FrameOutcome::Shutdown))
            },
            DecodeResult::DecodeTaskFailed(m) => {
                self.has_reader = true;
                DecodeStep::Finish(Err(AudioError::TaskJoinError(m)))
            },
            DecodeResult::Decoded { rate, channels } => {
                self.spec = complete_shape(self.spec, rate, channels);
                self.has_reader = true;
                self.has_codec = true;
                DecodeStep::Finish(Ok(FrameOutcome::Decoded(ts)))
            },
            DecodeResult::CodecFailed(f) => {
                match f {
                    MediaFailure::Decode(_) => DecodeStep::NextPacket,
                    MediaFailure::Unsupported(m) => {
                        self.has_reader = true;
                        self.has_codec = true;
                        DecodeStep::Finish(Err(AudioError::UnsupportedFormat(m)))
                    },
                    _ => {
                        self.has_reader = true;
                        self.has_codec = true;
                        DecodeStep::Finish(Err(media_error_of(f)))
                    },
                }
            },
        }
    }
}

/// The signal description after a frame of `channels` channels at `rate`:
/// a missing description, or one with no channels, is replaced by the
/// frame's when the frame has channels; otherwise it stays.
pub open spec fn completed_shape(current: Option<SignalShape>, rate: u32, channels: usize) -> Option<
    SignalShape,
> {
    let incomplete = match current {
        None => true,
        Some(s) => s.channels == 0,
    };
    if incomplete && channels > 0 {
        Some(SignalShape { rate, channels })
    } else {
        current
    }
}

/// Completes a signal description from a decoded frame's.
pub fn complete_shape(current: Option<SignalShape>, rate: u32, channels: usize) -> (r: Option<
    SignalShape,
>)
    ensures
        r == completed_shape(current, rate, channels),
{
    let incomplete = match current {
        None => true,
        Some(s) => s.channels == 0,
    };
    if incomplete && channels > 0 {
        Some(SignalShape { rate, channels })
    } else {
        current
    }
}

/// A complete signal description is never replaced by a later frame's.
pub proof fn lemma_complete_shape_stable(s: SignalShape, rate: u32, channels: usize)
    requires
        s.channels > 0,
    ensures
        completed_shape(Some(s), rate, channels) == Some(s),
{
}

/// The codec kind that marks a track with nothing to play.
pub const CODEC_NULL: u32 = 0;

/// A track's parameters as the decoder reads them when it is set up.
#[derive(Debug, Clone, Copy, PartialEq, Eq, Structural)]
pub struct TrackParams {
    pub id: u32,
    pub codec: u32,
    pub sample_rate: Option<u32>,
    pub channels: Option<usize>,
}

/// The index of the first track with a playable codec.
pub open spec fn is_first_playable(tracks: Seq<TrackParams>, i: int) -> bool {
    &&& 0 <= i < tracks.len()
    &&& tracks[i].codec != CODEC_NULL
    &&& forall|j: int| 0 <= j < i ==> tracks[j].codec == CODEC_NULL
}

/// Chooses the track to decode and the session to decode it with: the first
/// track with a playable codec, which must state its sample rate; its
/// signal description is known when it states its channels.
pub fn select_track(tracks: &Vec<TrackParams>) -> (r: Result<(usize, DecodeSession), AudioError>)
    ensures
        match r {
            Ok((i, s)) => {
                &&& is_first_playable(tracks@, i as int)
                &&& tracks@[i as int].sample_rate is Some
                &&& s.reader_held() && s.codec_held()
                &&& s.track() == tracks@[i as int].id
                &&& s.shape() == match tracks@[i as int].channels {
                    None => None,
                    Some(c) => Some(SignalShape { rate: tracks@[i as int].sample_rate->0, channels: c }),
                }
            },
            Err(AudioError::UnsupportedFormat(m)) => m@ == "No suitable audio track found"@
                && forall|j: int| 0 <= j < tracks@.len() ==> tracks@[j].codec == CODEC_NULL,
            Err(AudioError::MissingCodecParams(m)) => m@ == "sample rate"@ && exists|i: int|
                is_first_playable(tracks@, i) && tracks@[i].sample_rate is None,
            Err(_) => false,
        },
{
    let mut i: usize = 0;
    while i < tracks.len()
        invariant
            i <= tracks.len(),
            forall|j: int| 0 <= j < i ==> tracks@[j].codec == CODEC_NULL,
        decreases tracks.len() - i,
    {
        let t = tracks[i];
        if t.codec != CODEC_NULL {
            assert(is_first_playable(tracks@, i as int));
            match t.sample_rate {
                None => {
                    return Err(AudioError::MissingCodecParams("sample rate"));
                },
                Some(rate) => {
                    let shape = match t.channels {
                        None => None,
                        Some(c) => Some(SignalShape { rate, channels: c }),
                    };
                    return Ok((i, DecodeSession::new(t.id, shape)));
                },
            }
        }
        i = i + 1;
    }
    Err(AudioError::UnsupportedFormat(owned("No suitable audio track found")))
}

} // verus!
