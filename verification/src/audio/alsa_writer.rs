//! The chunking and retry decisions of writing interleaved S16 samples to
//! the output device.
//!
//! A buffer is written in chunks of at most 4096 frames. A write that
//! reports zero frames means the device recovered from an underrun, and the
//! same chunk is written again; a write of some frames advances by at most
//! the chunk's length.

use vstd::prelude::*;

verus! {

/// The largest number of frames handed to one device write.
pub const MAX_CHUNK_FRAMES: usize = 4096;

/// How far the write of one buffer has got.
pub struct AlsaWriteProgress {
    num_channels: usize,
    total_frames: usize,
    offset: usize,
}

/// What to do after a device write returned.
#[derive(Debug, Clone, Copy, PartialEq, Eq)]
pub enum WriteDecision {
    /// The device recovered from an underrun: write the same chunk again.
    RetrySameChunk,
    /// Frames were written; the offset advanced.
    Advanced,
}

impl AlsaWriteProgress {
    /// Channels per frame.
    pub closed spec fn channels(&self) -> int {
        self.num_channels as int
    }

    /// Whole frames in the buffer.
    pub closed spec fn total(&self) -> int {
        self.total_frames as int
    }

    /// Frames written so far.
    pub closed spec fn written(&self) -> int {
        self.offset as int
    }

    /// Frames written never exceed the frames in the buffer, which fit in it.
    pub closed spec fn wf(&self) -> bool {
        &&& self.num_channels > 0
        &&& self.offset <= self.total_frames
        &&& self.total_frames * self.num_channels <= usize::MAX
    }

    /// Progress for a buffer of `sample_count` interleaved samples of
    /// `num_channels` channels; none when the buffer is empty or there are
    /// no channels, as then nothing is written. Trailing samples that do
    /// not fill a frame are not written.
    pub fn new(sample_count: usize, num_channels: usize) -> (r: Option<AlsaWriteProgress>)
        ensures
            sample_count == 0 || num_channels == 0 ==> r is None,
            sample_count > 0 && num_channels > 0 ==> (r matches Some(p) && p.wf() && p.channels()
                == num_channels && p.total() == sample_count as int / num_channels as int
                && p.written() == 0),
    {
        if sample_count == 0 || num_channels == 0 {
            return None;
        }
        let total_frames = sample_count / num_channels;
        assert(total_frames * num_channels <= sample_count) by (nonlinear_arith)
            requires
                total_frames == sample_count / num_channels,
                num_channels > 0,
        ;
        Some(AlsaWriteProgress { num_channels, total_frames, offset: 0 })
    }

    /// Whether every frame has been written.
    pub fn is_done(&self) -> (r: bool)
        requires
            self.wf(),
        ensures
            r == (self.written() >= self.total()),
    {
        self.offset >= self.total_frames
    }

    /// The sample range `[start, end)` of the next chunk: the next at most
    /// 4096 frames after those written.
    pub fn next_chunk(&self) -> (r: (usize, usize))
        requires
            self.wf(),
            self.written() < self.total(),
        ensures
            ({
                let frames = if self.total() - self.written() < MAX_CHUNK_FRAMES {
                    self.total() - self.written()
                } else {
                    MAX_CHUNK_FRAMES as int
                };
                &&& r.0 == self.written() * self.channels()
                &&& r.1 == (self.written() + frames) * self.channels()
            }),
    {
        let remaining = self.total_frames - self.offset;
        let chunk_frames = if remaining < MAX_CHUNK_FRAMES { remaining } else { MAX_CHUNK_FRAMES };
        let end_frame = self.offset + chunk_frames;
        assert(end_frame * self.num_channels <= self.total_frames * self.num_channels)
            by (nonlinear_arith)
            requires
                end_frame <= self.total_frames,
        ;
        assert(self.offset * self.num_channels <= end_frame * self.num_channels)
            by (nonlinear_arith)
            requires
                self.offset <= end_frame,
        ;
        (self.offset * self.num_channels, end_frame * self.num_channels)
    }

    /// Records a device write of the current chunk that reported
    /// `frames_written` frames.
    pub fn record_write(&mut self, frames_written: usize) -> (d: WriteDecision)
        requires
            old(self).wf(),
            old(self).written() < old(self).total(),
        ensures
            final(self).wf(),
            final(self).channels() == old(self).channels(),
            final(self).total() == old(self).total(),
            frames_written == 0 ==> d == WriteDecision::RetrySameChunk && final(self).written()
                == old(self).written(),
            frames_written > 0 ==> d == WriteDecision::Advanced && {
                let chunk = if old(self).total() - old(self).written() < MAX_CHUNK_FRAMES {
                    old(self).total() - old(self).written()
                } else {
                    MAX_CHUNK_FRAMES as int
                };
                final(self).written() == old(self).written() + if (frames_written as int) < chunk {
                    frames_written as int
                } else {
                    chunk
                }
            },
    {
        if frames_written == 0 {
            return WriteDecision::RetrySameChunk;
        }
        let remaining = self.total_frames - self.offset;
        let chunk_frames = if remaining < MAX_CHUNK_FRAMES { remaining } else { MAX_CHUNK_FRAMES };
        let actual = if frames_written < chunk_frames { frames_written } else { chunk_frames };
        self.offset = self.offset + actual;
        WriteDecision::Advanced
    }
}

} // verus!
