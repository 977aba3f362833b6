//! The decisions of the playback loops.
//!
//! The loop reads the shared pause flag, pauses or resumes the device on a
//! change, waits while paused, and otherwise decodes one frame ahead: the
//! frame decoded in the previous iteration is processed and written while
//! the decoder's newest result tells whether it was the last one. The first
//! decoded frame triggers the deferred device and resampler set-up.

use vstd::prelude::*;
use crate::audio::error::AudioError;
use crate::audio::decoder::SignalShape;
use crate::text::{concat2, owned};

verus! {

/// Why the playback loop ended without an error.
#[derive(Debug, Clone, Copy, PartialEq, Eq, Structural)]
pub enum PlaybackLoopExitReason {
    EndOfStream,
    ShutdownSignal,
}

/// A device pause state change to request.
#[derive(Debug, Clone, Copy, PartialEq, Eq, Structural)]
pub enum AlsaPauseAction {
    NoChange,
    Pause,
    Resume,
}

/// The device request for a pause flag `now` when `was` was last acted on.
pub open spec fn pause_action(was: bool, now: bool) -> AlsaPauseAction {
    if now && !was {
        AlsaPauseAction::Pause
    } else if !now && was {
        AlsaPauseAction::Resume
    } else {
        AlsaPauseAction::NoChange
    }
}

/// Tracks the pause state last acted on.
pub struct PauseTracker {
    was_paused: bool,
}

impl PauseTracker {
    /// The pause state last acted on.
    pub closed spec fn paused(&self) -> bool {
        self.was_paused
    }

    /// Starts out playing.
    pub fn new() -> (t: PauseTracker)
        ensures
            !t.paused(),
    {
        PauseTracker { was_paused: false }
    }

    /// Observes the shared pause flag: requests a device pause when it
    /// turned on, a resume when it turned off, nothing otherwise.
    pub fn observe(&mut self, is_paused: bool) -> (a: AlsaPauseAction)
        ensures
            final(self).paused() == is_paused,
            a == pause_action(old(self).paused(), is_paused),
    {
        let a = if is_paused && !self.was_paused {
            AlsaPauseAction::Pause
        } else if !is_paused && self.was_paused {
            AlsaPauseAction::Resume
        } else {
            AlsaPauseAction::NoChange
        };
        self.was_paused = is_paused;
        a
    }
}

/// Observing a pause flag equal to the state last acted on requests
/// nothing: a second observation of the same flag never acts again.
pub proof fn lemma_pause_observed_once(was: bool, p: bool)
    ensures
        pause_action(p, p) == AlsaPauseAction::NoChange,
        pause_action(was, p) != AlsaPauseAction::NoChange ==> was != p,
{
}

/// The decoder's result for one frame, with the buffer type left open.
#[derive(Debug)]
pub enum DecodeOutcome<B> {
    Decoded(B),
    Skipped(String),
    EndOfStream,
    Shutdown,
    Failed(AudioError),
}

/// A decoder result kept for the next iteration.
#[derive(Debug)]
pub enum Pending<B> {
    Decoded(B),
    Skipped(String),
    Failed(AudioError),
}

/// What the loop does after a step.
#[derive(Debug)]
pub enum LoopStep<B> {
    /// Start the next iteration.
    Continue,
    /// Process this buffer, set up the device first when asked, and treat it
    /// as the last one when told so; then report the outcome.
    Process { buffer: B, needs_init: bool, is_last: bool },
    /// End the loop with this result.
    Exit(Result<PlaybackLoopExitReason, AudioError>),
}

/// What became of a processed buffer.
#[derive(Debug)]
pub enum ProcessOutcome {
    /// Converted and written to the device.
    Written,
    /// The processor skipped it (conversion or resampling failed, or empty).
    Skipped,
    /// A shutdown was requested during the device write.
    ShutdownDuringWrite,
    /// Processing or writing failed.
    Failed(AudioError),
}

/// The lookahead playback loop's memory.
pub struct LookaheadLoop<B> {
    initialized: bool,
    pending: Option<Pending<B>>,
    lookahead: Option<DecodeOutcome<B>>,
}

/// `o` ends the stream for the buffer before it: end, shutdown or failure.
pub open spec fn ends_stream<B>(o: DecodeOutcome<B>) -> bool {
    o is EndOfStream || o is Shutdown || o is Failed
}

impl<B> LookaheadLoop<B> {
    /// Whether the device has been set up.
    pub closed spec fn is_initialized(&self) -> bool {
        self.initialized
    }

    /// The result kept for the next iteration.
    pub closed spec fn pending_result(&self) -> Option<Pending<B>> {
        self.pending
    }

    /// Whether a decoder result is held while a buffer is processed.
    pub closed spec fn awaiting_outcome(&self) -> bool {
        self.lookahead is Some
    }

    /// The decoder result held while a buffer is processed.
    pub closed spec fn held(&self) -> Option<DecodeOutcome<B>> {
        self.lookahead
    }

    /// A loop that has decoded nothing and set up nothing.
    pub fn new() -> (l: LookaheadLoop<B>)
        ensures
            !l.is_initialized(),
            l.pending_result() is None,
            !l.awaiting_outcome(),
    {
        LookaheadLoop { initialized: false, pending: None, lookahead: None }
    }

    /// Records that the device and processor were set up.
    pub fn mark_initialized(&mut self)
        ensures
            final(self).is_initialized(),
            final(self).pending_result() == old(self).pending_result(),
            final(self).awaiting_outcome() == old(self).awaiting_outcome(),
    {
        self.initialized = true;
    }

    fn handle_next(&mut self, next: DecodeOutcome<B>) -> (s: LoopStep<B>)
        requires
            old(self).pending_result() is None,
            !old(self).awaiting_outcome(),
        ensures
            !final(self).awaiting_outcome(),
            final(self).is_initialized() == old(self).is_initialized(),
            next_step_ok(next, old(self).is_initialized(), final(self).pending_result(), s),
    {
        match next {
            DecodeOutcome::Decoded(b) => {
                self.pending = Some(Pending::Decoded(b));
                LoopStep::Continue
            },
            DecodeOutcome::Skipped(reason) => {
                self.pending = Some(Pending::Skipped(reason));
                LoopStep::Continue
            },
            DecodeOutcome::EndOfStream => {
                if !self.initialized {
                    LoopStep::Exit(Err(AudioError::EmptyStream))
                } else {
                    LoopStep::Exit(Ok(PlaybackLoopExitReason::EndOfStream))
                }
            },
            DecodeOutcome::Shutdown => LoopStep::Exit(Ok(PlaybackLoopExitReason::ShutdownSignal)),
            DecodeOutcome::Failed(e) => {
                self.pending = Some(Pending::Failed(e));
                LoopStep::Continue
            },
        }
    }

    /// Takes the decoder's newest result. A buffer decoded in the previous
    /// iteration is handed out for processing, marked last when the newest
    /// result ends the stream; an earlier decoder failure ends the loop;
    /// otherwise the newest result is dealt with at once.
    pub fn begin(&mut self, next: DecodeOutcome<B>) -> (s: LoopStep<B>)
        requires
            !old(self).awaiting_outcome(),
        ensures
            final(self).is_initialized() == old(self).is_initialized(),
            match old(self).pending_result() {
                Some(Pending::Decoded(b)) => {
                    &&& s == LoopStep::Process {
                        buffer: b,
                        needs_init: !old(self).is_initialized(),
                        is_last: ends_stream(next),
                    }
                    &&& final(self).awaiting_outcome()
                    &&& final(self).held() == Some(next)
                    &&& final(self).pending_result() is None
                },
                Some(Pending::Failed(e)) => {
                    &&& s == LoopStep::<B>::Exit(Err(e))
                    &&& !final(self).awaiting_outcome()
                    &&& final(self).pending_result() is None
                },
                _ => {
                    &&& !final(self).awaiting_outcome()
                    &&& next_step_ok(next, old(self).is_initialized(), final(self).pending_result(), s)
                },
            },
    {
        match self.pending.take() {
            Some(Pending::Decoded(b)) => {
                let is_last = match &next {
                    DecodeOutcome::EndOfStream | DecodeOutcome::Shutdown | DecodeOutcome::Failed(_) => true,
                    _ => false,
                };
                self.lookahead = Some(next);
                LoopStep::Process { buffer: b, needs_init: !self.initialized, is_last }
            },
            Some(Pending::Failed(e)) => LoopStep::Exit(Err(e)),
            _ => self.handle_next(next),
        }
    }

    /// Reports what became of the processed buffer. After a write, the held
    /// decoder result is dealt with; a skipped buffer drops it and starts
    /// the next iteration; a shutdown or failure ends the loop.
    pub fn finish(&mut self, outcome: ProcessOutcome) -> (s: LoopStep<B>)
        requires
            old(self).awaiting_outcome(),
            old(self).pending_result() is None,
        ensures
            !final(self).awaiting_outcome(),
            final(self).is_initialized() == old(self).is_initialized(),
            match outcome {
                ProcessOutcome::Written => next_step_ok(
                    old(self).held()->0,
                    old(self).is_initialized(),
                    final(self).pending_result(),
                    s,
                ),
                ProcessOutcome::Skipped => s is Continue && final(self).pending_result() is None,
                ProcessOutcome::ShutdownDuringWrite => s == LoopStep::<B>::Exit(
                    Ok(PlaybackLoopExitReason::ShutdownSignal),
                ) && final(self).pending_result() is None,
                ProcessOutcome::Failed(e) => s == LoopStep::<B>::Exit(Err(e))
                    && final(self).pending_result() is None,
            },
    {
        let next = self.lookahead.take();
        match outcome {
            ProcessOutcome::Written => {
                match next {
                    Some(n) => self.handle_next(n),
                    None => LoopStep::Exit(Ok(PlaybackLoopExitReason::ShutdownSignal)),
                }
            },
            ProcessOutcome::Skipped => LoopStep::Continue,
            ProcessOutcome::ShutdownDuringWrite => LoopStep::Exit(
                Ok(PlaybackLoopExitReason::ShutdownSignal),
            ),
            ProcessOutcome::Failed(e) => LoopStep::Exit(Err(e)),
        }
    }
}

/// How the newest decoder result is dealt with when no buffer waits: a
/// buffer, a skip or a failure is kept for the next iteration; the end of
/// the stream ends the loop (as an empty stream if nothing was set up); a
/// shutdown ends it.
pub open spec fn next_step_ok<B>(
    next: DecodeOutcome<B>,
    initialized: bool,
    pending: Option<Pending<B>>,
    s: LoopStep<B>,
) -> bool {
    match next {
        DecodeOutcome::Decoded(b) => pending == Some(Pending::Decoded(b)) && s is Continue,
        DecodeOutcome::Skipped(r) => pending == Some(Pending::<B>::Skipped(r)) && s is Continue,
        DecodeOutcome::EndOfStream => pending is None && s == if initialized {
            LoopStep::<B>::Exit(Ok(PlaybackLoopExitReason::EndOfStream))
        } else {
            LoopStep::<B>::Exit(Err(AudioError::EmptyStream))
        },
        DecodeOutcome::Shutdown => pending is None && s == LoopStep::<B>::Exit(
            Ok(PlaybackLoopExitReason::ShutdownSignal),
        ),
        DecodeOutcome::Failed(e) => pending == Some(Pending::<B>::Failed(e)) && s is Continue,
    }
}

/// The channel count of the decoder's signal after the first frame: an
/// error when the decoder still has no signal description or one with no
/// channels.
pub fn deferred_channels(spec_channels: Option<usize>) -> (r: Result<usize, AudioError>)
    ensures
        match spec_channels {
            None => r matches Err(AudioError::InitializationError(m))
                && m@ == "Decoder spec unavailable after first frame"@,
            Some(0) => r matches Err(AudioError::InitializationError(m))
                && m@ == "Decoder spec has zero channels"@,
            Some(n) => r == Ok::<usize, AudioError>(n),
        },
{
    match spec_channels {
        None => Err(AudioError::InitializationError(owned("Decoder spec unavailable after first frame"))),
        Some(n) => {
            if n == 0 {
                Err(AudioError::InitializationError(owned("Decoder spec has zero channels")))
            } else {
                Ok(n)
            }
        },
    }
}

/// Whether decoded audio must be resampled for the device: exactly when the
/// device's rate differs from the decoder's.
pub fn needs_resampler(decoder_rate: u32, device_rate: u32) -> (r: bool)
    ensures
        r == (decoder_rate != device_rate),
{
    decoder_rate != device_rate
}

/// What the single-step playback loop does with a decoder result.
#[derive(Debug)]
pub enum DirectStep<B> {
    /// Process and write this buffer.
    Process(B),
    /// Start the next iteration.
    Continue,
    /// Flush the resampler, if any, write what it returns, and end normally.
    FlushAndFinish,
    /// End the loop with this result.
    Exit(Result<PlaybackLoopExitReason, AudioError>),
}

/// The single-step loop's step for a decoder result.
pub open spec fn direct_step_of<B>(outcome: DecodeOutcome<B>) -> DirectStep<B> {
    match outcome {
        DecodeOutcome::Decoded(b) => DirectStep::Process(b),
        DecodeOutcome::Skipped(_) => DirectStep::Continue,
        DecodeOutcome::EndOfStream => DirectStep::FlushAndFinish,
        DecodeOutcome::Shutdown => DirectStep::Exit(Ok(PlaybackLoopExitReason::ShutdownSignal)),
        DecodeOutcome::Failed(e) => DirectStep::Exit(Err(e)),
    }
}

/// The decision of the loop that processes every frame as soon as it is
/// decoded: buffers are processed, skips continue, the end of the stream
/// flushes and finishes, a shutdown ends the loop, a failure ends it with
/// the error.
pub fn direct_step<B>(outcome: DecodeOutcome<B>) -> (s: DirectStep<B>)
    ensures
        s == direct_step_of(outcome),
{
    match outcome {
        DecodeOutcome::Decoded(b) => DirectStep::Process(b),
        DecodeOutcome::Skipped(_) => DirectStep::Continue,
        DecodeOutcome::EndOfStream => DirectStep::FlushAndFinish,
        DecodeOutcome::Shutdown => DirectStep::Exit(Ok(PlaybackLoopExitReason::ShutdownSignal)),
        DecodeOutcome::Failed(e) => DirectStep::Exit(Err(e)),
    }
}

/// What became of a device write of one buffer: written, or the writer's
/// error, of which a shutdown request is told apart.
pub fn write_outcome(r: Result<(), AudioError>) -> (o: ProcessOutcome)
    ensures
        match r {
            Ok(()) => o is Written,
            Err(AudioError::ShutdownRequested) => o is ShutdownDuringWrite,
            Err(e) => o == ProcessOutcome::Failed(e),
        },
{
    match r {
        Ok(()) => ProcessOutcome::Written,
        Err(AudioError::ShutdownRequested) => ProcessOutcome::ShutdownDuringWrite,
        Err(e) => ProcessOutcome::Failed(e),
    }
}

/// The single-step loop's step after a processed buffer.
pub open spec fn after_process_of<B>(outcome: ProcessOutcome) -> DirectStep<B> {
    match outcome {
        ProcessOutcome::Written => DirectStep::Continue,
        ProcessOutcome::Skipped => DirectStep::Continue,
        ProcessOutcome::ShutdownDuringWrite => DirectStep::Exit(
            Ok(PlaybackLoopExitReason::ShutdownSignal),
        ),
        ProcessOutcome::Failed(e) => DirectStep::Exit(Err(e)),
    }
}

/// The single-step loop's step after a buffer was processed: a written or
/// skipped buffer continues the loop, a shutdown during the write ends it
/// as a shutdown, and a failure ends it with the error.
pub fn direct_after_process<B>(outcome: ProcessOutcome) -> (s: DirectStep<B>)
    ensures
        s == after_process_of::<B>(outcome),
{
    match outcome {
        ProcessOutcome::Written => DirectStep::Continue,
        ProcessOutcome::Skipped => DirectStep::Continue,
        ProcessOutcome::ShutdownDuringWrite => DirectStep::Exit(
            Ok(PlaybackLoopExitReason::ShutdownSignal),
        ),
        ProcessOutcome::Failed(e) => DirectStep::Exit(Err(e)),
    }
}

/// How flushing the resampler at the end of the stream went.
#[derive(Debug)]
pub enum FlushOutcome {
    /// There is no resampler, or it returned nothing to write.
    NothingToWrite,
    /// The flushed samples were written, or writing them failed.
    Written(Result<(), AudioError>),
    /// Converting the flushed samples failed.
    ConvertFailed(AudioError),
    /// The resampler failed to flush, with its message.
    ResampleFailed(String),
}

/// The single-step loop's result after the end of the stream and the
/// flush: the end of the stream, unless the flush failed, in which case
/// its error (a failed resampler as a resampling error).
pub fn direct_finish(flush: FlushOutcome) -> (r: Result<PlaybackLoopExitReason, AudioError>)
    ensures
        match flush {
            FlushOutcome::NothingToWrite => r == Ok::<PlaybackLoopExitReason, AudioError>(
                PlaybackLoopExitReason::EndOfStream,
            ),
            FlushOutcome::Written(Ok(())) => r == Ok::<PlaybackLoopExitReason, AudioError>(
                PlaybackLoopExitReason::EndOfStream,
            ),
            FlushOutcome::Written(Err(e)) => r == Err::<PlaybackLoopExitReason, AudioError>(e),
            FlushOutcome::ConvertFailed(e) => r == Err::<PlaybackLoopExitReason, AudioError>(e),
            FlushOutcome::ResampleFailed(m) => (r matches Err(AudioError::ResamplingError(t)) && t@
                == "Resampler flush failed: "@ + m@),
        },
{
    match flush {
        FlushOutcome::NothingToWrite => Ok(PlaybackLoopExitReason::EndOfStream),
        FlushOutcome::Written(Ok(())) => Ok(PlaybackLoopExitReason::EndOfStream),
        FlushOutcome::Written(Err(e)) => Err(e),
        FlushOutcome::ConvertFailed(e) => Err(e),
        FlushOutcome::ResampleFailed(m) => Err(
            AudioError::ResamplingError(concat2("Resampler flush failed: ", m.as_str())),
        ),
    }
}

/// The single-step loop ends at the end of the stream only by the end of
/// the stream: neither a decoder result nor a processed buffer ends it so
/// directly; the decoder's end of the stream leads to the flush, and a
/// flush with nothing to write, or written, ends it there.
pub proof fn lemma_direct_loop_end_of_stream<B>(outcome: DecodeOutcome<B>, processed: ProcessOutcome)
    ensures
        direct_step_of(outcome) != DirectStep::<B>::Exit(Ok(PlaybackLoopExitReason::EndOfStream)),
        after_process_of::<B>(processed) != DirectStep::<B>::Exit(
            Ok(PlaybackLoopExitReason::EndOfStream),
        ),
        direct_step_of(outcome) is FlushAndFinish <==> outcome is EndOfStream,
{
}

/// The signal description the output device is opened with before the
/// single-step loop starts: an error when the decoder has none yet.
pub fn initial_device_spec(spec: Option<SignalShape>) -> (r: Result<SignalShape, AudioError>)
    ensures
        match spec {
            Some(s) => r == Ok::<SignalShape, AudioError>(s),
            None => (r matches Err(AudioError::InitializationError(m)) && m@
                == "Decoder failed to provide initial spec"@),
        },
{
    match spec {
        Some(s) => Ok(s),
        None => Err(AudioError::InitializationError(owned("Decoder failed to provide initial spec"))),
    }
}

/// What happens once a playback loop ended: the device is drained and the
/// finish callback runs only after the end of the stream; the result is
/// success for the end of the stream or a shutdown, the error otherwise.
pub fn finish_playback(loop_result: Result<PlaybackLoopExitReason, AudioError>) -> (r: (
    bool,
    Result<(), AudioError>,
))
    ensures
        r.0 == (loop_result == Ok::<PlaybackLoopExitReason, AudioError>(
            PlaybackLoopExitReason::EndOfStream,
        )),
        match loop_result {
            Ok(_) => r.1 is Ok,
            Err(e) => r.1 == Err::<(), AudioError>(e),
        },
{
    match loop_result {
        Ok(PlaybackLoopExitReason::EndOfStream) => (true, Ok(())),
        Ok(PlaybackLoopExitReason::ShutdownSignal) => (false, Ok(())),
        Err(e) => (false, Err(e)),
    }
}

} // verus!
