//! An in-memory, seekable byte source for the decoder.
//!
//! The HTTP stream is downloaded completely first; this type then serves
//! reads and seeks over the downloaded bytes, as the decoder needs a source
//! that can both read and seek.

use vstd::prelude::*;
use crate::text::owned;

verus! {

/// Where a seek is measured from.
#[derive(Debug, Clone, Copy, PartialEq, Eq)]
pub enum SeekFrom {
    Start(u64),
    End(i64),
    Current(i64),
}

/// Why a stream operation failed, with its message.
#[derive(Debug, Clone, PartialEq, Eq)]
pub enum StreamError {
    /// The downloaded stream held no bytes.
    UnexpectedEof(String),
    /// A seek target was invalid.
    InvalidInput(String),
}

/// The downloaded bytes and the current read position.
pub struct ReqwestStreamWrapper {
    buffer: Vec<u8>,
    position: u64,
}

/// The number of bytes a read of `n` bytes at `pos` returns from `len` bytes.
pub open spec fn read_count(pos: int, len: int, n: int) -> int {
    if pos >= len {
        0
    } else if n < len - pos {
        n
    } else {
        len - pos
    }
}

/// The outcome of a seek from position `pos` in `len` bytes: the new
/// position, capped at the end, or the reason the target is invalid.
pub open spec fn seek_outcome(pos: u64, len: int, style: SeekFrom) -> Result<u64, Seq<char>> {
    let target: Result<int, Seq<char>> = match style {
        SeekFrom::Start(p) => Ok(p as int),
        SeekFrom::End(d) => {
            let sum = (len as i64) as int + d as int;
            if sum < i64::MIN || sum > i64::MAX {
                Err("seek offset overflow"@)
            } else if sum < 0 {
                Err("seek before start"@)
            } else {
                Ok(sum)
            }
        },
        SeekFrom::Current(d) => {
            let sum = (pos as i64) as int + d as int;
            if sum < i64::MIN || sum > i64::MAX {
                Err("seek offset overflow"@)
            } else if sum < 0 {
                Err("seek before start"@)
            } else {
                Ok(sum)
            }
        },
    };
    match target {
        Ok(t) => Ok(if t < len { t as u64 } else { len as u64 }),
        Err(m) => Err(m),
    }
}

impl ReqwestStreamWrapper {
    /// The downloaded bytes.
    pub closed spec fn bytes(&self) -> Seq<u8> {
        self.buffer@
    }

    /// The read position.
    pub closed spec fn pos(&self) -> u64 {
        self.position
    }

    /// The position never passes the end of the bytes.
    pub closed spec fn wf(&self) -> bool {
        self.position <= self.buffer@.len() && self.buffer@.len() <= u64::MAX
    }

    /// Wraps downloaded bytes, positioned at the start; an empty download
    /// is refused with "Downloaded stream was empty".
    pub fn new_from_buffer(buffer: Vec<u8>) -> (r: Result<ReqwestStreamWrapper, StreamError>)
        ensures
            buffer@.len() == 0 ==> (r matches Err(StreamError::UnexpectedEof(m))
                && m@ == "Downloaded stream was empty"@),
            buffer@.len() > 0 ==> (r matches Ok(w) && w.wf() && w.bytes() == buffer@ && w.pos()
                == 0),
    {
        if buffer.len() == 0 {
            return Err(StreamError::UnexpectedEof(owned("Downloaded stream was empty")));
        }
        assert(buffer@.len() <= usize::MAX);
        Ok(ReqwestStreamWrapper { buffer, position: 0 })
    }

    /// Copies bytes from the current position into `buf`, as many as fit
    /// and remain, advances the position by that number and returns it.
    pub fn read(&mut self, buf: &mut [u8]) -> (n: usize)
        requires
            old(self).wf(),
        ensures
            final(self).wf(),
            n == read_count(old(self).pos() as int, old(self).bytes().len() as int, old(buf)@.len() as int),
            final(self).bytes() == old(self).bytes(),
            final(self).pos() == old(self).pos() + n,
            final(buf)@.len() == old(buf)@.len(),
            final(buf)@.subrange(0, n as int) == old(self).bytes().subrange(
                old(self).pos() as int,
                old(self).pos() + n,
            ),
            final(buf)@.subrange(n as int, old(buf)@.len() as int) == old(buf)@.subrange(
                n as int,
                old(buf)@.len() as int,
            ),
    {
        let len = self.buffer.len();
        let current = self.position as usize;
        if current >= len {
            return 0;
        }
        let remaining = len - current;
        let can_read = if buf.len() < remaining { buf.len() } else { remaining };
        let mut i: usize = 0;
        while i < can_read
            invariant
                i <= can_read,
                current + can_read <= len,
                len == self.buffer@.len(),
                buf@.len() == old(buf)@.len(),
                can_read <= buf@.len(),
                forall|k: int| 0 <= k < i ==> #[trigger] buf@[k] == self.buffer@[current + k],
                forall|k: int| i <= k < buf@.len() ==> #[trigger] buf@[k] == old(buf)@[k],
            decreases can_read - i,
        {
            buf[i] = self.buffer[current + i];
            i = i + 1;
        }
        self.position = self.position + can_read as u64;
        proof {
            assert(buf@.subrange(0, can_read as int) =~= self.buffer@.subrange(
                current as int,
                current + can_read,
            ));
            assert(buf@.subrange(can_read as int, buf@.len() as int) =~= old(buf)@.subrange(
                can_read as int,
                old(buf)@.len() as int,
            ));
        }
        can_read
    }

    /// Moves the position: from the start, the end or the current position.
    /// A target before the start, or an offset that overflows `i64`, is
    /// refused and leaves the position unchanged; a target past the end
    /// stops at the end. Returns the new position.
    pub fn seek(&mut self, style: SeekFrom) -> (r: Result<u64, StreamError>)
        requires
            old(self).wf(),
        ensures
            final(self).wf(),
            final(self).bytes() == old(self).bytes(),
            match seek_outcome(old(self).pos(), old(self).bytes().len() as int, style) {
                Ok(p) => r == Ok::<u64, StreamError>(p) && final(self).pos() == p,
                Err(m) => (r matches Err(StreamError::InvalidInput(e)) && e@ == m) && final(self).pos()
                    == old(self).pos(),
            },
    {
        let buffer_len = self.buffer.len() as u64;
        let new_pos: u64 = match style {
            SeekFrom::Start(p) => p,
            SeekFrom::End(d) => {
                let len_i64 = buffer_len as i64;
                match len_i64.checked_add(d) {
                    None => {
                        return Err(StreamError::InvalidInput(owned("seek offset overflow")));
                    },
                    Some(sum) => {
                        if sum < 0 {
                            return Err(StreamError::InvalidInput(owned("seek before start")));
                        }
                        sum as u64
                    },
                }
            },
            SeekFrom::Current(d) => {
                let cur_i64 = self.position as i64;
                match cur_i64.checked_add(d) {
                    None => {
                        return Err(StreamError::InvalidInput(owned("seek offset overflow")));
                    },
                    Some(sum) => {
                        if sum < 0 {
                            return Err(StreamError::InvalidInput(owned("seek before start")));
                        }
                        sum as u64
                    },
                }
            },
        };
        self.position = if new_pos < buffer_len { new_pos } else { buffer_len };
        Ok(self.position)
    }

    /// The source supports seeking.
    pub fn is_seekable(&self) -> (r: bool)
        ensures
            r,
    {
        true
    }

    /// The number of downloaded bytes.
    pub fn byte_len(&self) -> (r: Option<u64>)
        requires
            self.wf(),
        ensures
            r == Some(self.bytes().len() as u64),
    {
        Some(self.buffer.len() as u64)
    }
}

/// Seeking to the current position leaves it unchanged.
pub proof fn lemma_seek_current_zero(pos: u64, len: int)
    requires
        pos <= len <= i64::MAX,
    ensures
        seek_outcome(pos, len, SeekFrom::Current(0)) == Ok::<u64, Seq<char>>(pos),
{
}

/// After a seek from the start, the position is the target capped at the end.
pub proof fn lemma_seek_start(pos: u64, len: int, p: u64)
    requires
        len <= u64::MAX,
    ensures
        seek_outcome(pos, len, SeekFrom::Start(p)) == Ok::<u64, Seq<char>>(
            if (p as int) < len { p } else { len as u64 },
        ),
{
}

/// Once at the end, a read returns no bytes.
pub proof fn lemma_read_at_end(len: int, n: int)
    ensures
        read_count(len, len, n) == 0,
{
}

} // verus!
