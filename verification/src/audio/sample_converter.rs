//! Integer sample conversion to interleaved signed 16-bit samples.
//!
//! Decoded audio arrives as one plane of samples per channel. The output
//! device takes interleaved S16: frame 0 of every channel, then frame 1 of
//! every channel, and so on. Unsigned 8-bit samples are re-centred and
//! scaled up, 24-bit samples (held in an `i32`) keep their top 16 bits and
//! 32-bit samples keep their top 16 bits.

use vstd::prelude::*;
use crate::audio::error::AudioError;
use crate::text::owned;

verus! {

/// Decoded integer planes, one inner vector per channel.
#[derive(Debug, Clone)]
pub enum IntPlanes {
    U8(Vec<Vec<u8>>),
    S16(Vec<Vec<i16>>),
    /// 24-bit samples, each held in the low 24 bits of an `i32`.
    S24(Vec<Vec<i32>>),
    S32(Vec<Vec<i32>>),
}

/// The position of frame `f` of channel `c` in an interleaved buffer of `n` channels.
pub open spec fn slot(f: int, c: int, n: int) -> int {
    f * n + c
}

/// An unsigned 8-bit sample re-centred on zero and scaled to 16 bits.
pub open spec fn u8_sample_to_s16(s: u8) -> int {
    (s as int - 128) * 256
}

/// `r` is the floor of `s` divided by 2 to the power `k`, for `k` 8 or 16.
pub open spec fn is_floor_shift(s: int, k: int, r: int) -> bool {
    let d: int = if k == 8 { 256 } else { 65536 };
    r * d <= s < r * d + d
}

/// Converts an unsigned 8-bit sample.
pub fn u8_to_s16(s: u8) -> (r: i16)
    ensures
        r as int == u8_sample_to_s16(s),
{
    ((s as i16) - 128) * 256
}

/// Converts a 32-bit sample by keeping its top 16 bits (an arithmetic shift).
pub fn s32_to_s16(s: i32) -> (r: i16)
    ensures
        is_floor_shift(s as int, 16, r as int),
{
    let q: i32 = s >> 16u32;
    assert(q * 65536 <= s && s < q * 65536 + 65536) by (bit_vector)
        requires
            q == s >> 16u32,
    ;
    assert(-32768 <= q && q <= 32767) by (bit_vector)
        requires
            q == s >> 16u32,
    ;
    q as i16
}

/// Converts a 24-bit sample held in an `i32` by keeping its top 16 bits;
/// a value outside the 24-bit range is truncated to 16 bits after the shift.
pub fn s24_to_s16(s: i32) -> (r: i16)
    ensures
        r == ((s >> 8u32) as i16),
        -8388608 <= s < 8388608 ==> is_floor_shift(s as int, 8, r as int),
{
    let q: i32 = s >> 8u32;
    assert(q * 256 <= s && s < q * 256 + 256) by (bit_vector)
        requires
            q == s >> 8u32,
    ;
    proof {
        if -8388608 <= s < 8388608 {
            assert(-32768 <= q && q <= 32767) by (bit_vector)
                requires
                    q == s >> 8u32,
                    -8388608 <= s < 8388608,
            ;
        }
    }
    q as i16
}

/// The S16 value of frame `f` of channel `c`.
pub open spec fn s16_at(p: IntPlanes, c: int, f: int) -> i16 {
    match p {
        IntPlanes::U8(v) => u8_sample_to_s16(v@[c]@[f]) as i16,
        IntPlanes::S16(v) => v@[c]@[f],
        IntPlanes::S24(v) => ((v@[c]@[f] >> 8u32) as i16),
        IntPlanes::S32(v) => ((v@[c]@[f] >> 16u32) as i16),
    }
}

/// The number of planes.
pub open spec fn plane_count(p: IntPlanes) -> int {
    match p {
        IntPlanes::U8(v) => v@.len() as int,
        IntPlanes::S16(v) => v@.len() as int,
        IntPlanes::S24(v) => v@.len() as int,
        IntPlanes::S32(v) => v@.len() as int,
    }
}

/// The number of samples in plane `c`.
pub open spec fn plane_len(p: IntPlanes, c: int) -> int {
    match p {
        IntPlanes::U8(v) => v@[c]@.len() as int,
        IntPlanes::S16(v) => v@[c]@.len() as int,
        IntPlanes::S24(v) => v@[c]@.len() as int,
        IntPlanes::S32(v) => v@[c]@.len() as int,
    }
}

/// Every plane holds exactly `frames` samples and there are `channels` planes.
pub open spec fn planes_match(p: IntPlanes, channels: int, frames: int) -> bool {
    plane_count(p) == channels && forall|c: int| 0 <= c < channels ==> #[trigger] plane_len(p, c)
        == frames
}

/// `out` interleaves the planes' S16 values for `channels` channels and `frames` frames.
pub open spec fn interleaves(out: Seq<i16>, p: IntPlanes, channels: int, frames: int) -> bool {
    &&& out.len() == frames * channels
    &&& forall|f: int, c: int|
        0 <= f < frames && 0 <= c < channels ==> #[trigger] out[slot(f, c, channels)] == s16_at(
            p,
            c,
            f,
        )
}

proof fn lemma_slot_bounds(f: int, c: int, n: int, frames: int)
    requires
        0 <= f < frames,
        0 <= c < n,
    ensures
        0 <= slot(f, c, n) < frames * n,
        slot(f, c, n) + 1 <= (f + 1) * n,
        (f + 1) * n <= frames * n,
{
    assert(f * n + c < f * n + n) by (nonlinear_arith)
        requires
            c < n,
    ;
    assert((f + 1) * n == f * n + n) by (nonlinear_arith);
    assert((f + 1) * n <= frames * n) by (nonlinear_arith)
        requires
            f + 1 <= frames,
            0 <= n,
    ;
    assert(0 <= f * n) by (nonlinear_arith)
        requires
            0 <= f,
            0 <= n,
    ;
}

fn plane_to_s16(p: &IntPlanes, c: usize, frames: usize) -> (r: Vec<i16>)
    requires
        planes_match(*p, plane_count(*p), frames as int),
        c < plane_count(*p),
    ensures
        r@.len() == frames,
        forall|f: int| 0 <= f < frames ==> #[trigger] r@[f] == s16_at(*p, c as int, f),
{
    let mut r: Vec<i16> = Vec::new();
    let mut f: usize = 0;
    assert(plane_len(*p, c as int) == frames);
    while f < frames
        invariant
            f <= frames,
            planes_match(*p, plane_count(*p), frames as int),
            c < plane_count(*p),
            plane_len(*p, c as int) == frames,
            r@.len() == f,
            forall|g: int| 0 <= g < f ==> #[trigger] r@[g] == s16_at(*p, c as int, g),
        decreases frames - f,
    {
        let v: i16 = match p {
            IntPlanes::U8(planes) => u8_to_s16(planes[c][f]),
            IntPlanes::S16(planes) => planes[c][f],
            IntPlanes::S24(planes) => s24_to_s16(planes[c][f]),
            IntPlanes::S32(planes) => {
                let x = planes[c][f];
                let y = s32_to_s16(x);
                assert(y == ((x >> 16u32) as i16)) by (bit_vector)
                    requires
                        y * 65536 <= x && x < y * 65536 + 65536,
                ;
                y
            },
        };
        r.push(v);
        f = f + 1;
    }
    r
}

/// Interleaves `frames` frames of the given planes, each converted to S16.
fn interleave(p: &IntPlanes, channels: usize, frames: usize) -> (r: Vec<i16>)
    requires
        planes_match(*p, channels as int, frames as int),
        frames * channels <= usize::MAX,
    ensures
        interleaves(r@, *p, channels as int, frames as int),
{
    let mut converted: Vec<Vec<i16>> = Vec::new();
    let mut c: usize = 0;
    while c < channels
        invariant
            c <= channels,
            planes_match(*p, channels as int, frames as int),
            converted@.len() == c,
            forall|k: int, f: int|
                0 <= k < c && 0 <= f < frames ==> #[trigger] converted@[k]@[f] == s16_at(*p, k, f),
            forall|k: int| 0 <= k < c ==> #[trigger] converted@[k]@.len() == frames,
        decreases channels - c,
    {
        converted.push(plane_to_s16(p, c, frames));
        c = c + 1;
    }
    let mut out: Vec<i16> = Vec::new();
    let mut f: usize = 0;
    while f < frames
        invariant
            f <= frames,
            frames * channels <= usize::MAX,
            converted@.len() == channels,
            forall|k: int, g: int|
                0 <= k < channels && 0 <= g < frames ==> #[trigger] converted@[k]@[g] == s16_at(
                    *p,
                    k,
                    g,
                ),
            forall|k: int| 0 <= k < channels ==> #[trigger] converted@[k]@.len() == frames,
            out@.len() == f * channels,
            forall|g: int, k: int|
                0 <= g < f && 0 <= k < channels ==> #[trigger] out@[slot(g, k, channels as int)]
                    == s16_at(*p, k, g),
        decreases frames - f,
    {
        let mut k: usize = 0;
        while k < channels
            invariant
                f < frames,
                k <= channels,
                frames * channels <= usize::MAX,
                converted@.len() == channels,
                forall|j: int, g: int|
                    0 <= j < channels && 0 <= g < frames ==> #[trigger] converted@[j]@[g] == s16_at(
                        *p,
                        j,
                        g,
                    ),
                forall|j: int| 0 <= j < channels ==> #[trigger] converted@[j]@.len() == frames,
                out@.len() == f * channels + k,
                forall|g: int, j: int|
                    0 <= g < f && 0 <= j < channels ==> #[trigger] out@[slot(g, j, channels as int)]
                        == s16_at(*p, j, g),
                forall|j: int|
                    0 <= j < k ==> #[trigger] out@[slot(f as int, j, channels as int)] == s16_at(
                        *p,
                        j,
                        f as int,
                    ),
            decreases channels - k,
        {
            proof {
                lemma_slot_bounds(f as int, k as int, channels as int, frames as int);
            }
            let ghost before = out@;
            out.push(converted[k][f]);
            proof {
                assert forall|g: int, j: int|
                    0 <= g < f && 0 <= j < channels implies #[trigger] out@[slot(
                        g,
                        j,
                        channels as int,
                    )] == s16_at(*p, j, g) by {
                    lemma_slot_bounds(g, j, channels as int, f as int);
                    assert(out@[slot(g, j, channels as int)] == before[slot(g, j, channels as int)]);
                }
                assert forall|j: int| 0 <= j < k + 1 implies #[trigger] out@[slot(
                    f as int,
                    j,
                    channels as int,
                )] == s16_at(*p, j, f as int) by {
                    if j < k {
                        assert(out@[slot(f as int, j, channels as int)] == before[slot(
                            f as int,
                            j,
                            channels as int,
                        )]);
                    }
                }
            }
            k = k + 1;
        }
        proof {
            assert((f + 1) * channels == f * channels + channels) by (nonlinear_arith);
            assert forall|g: int, j: int|
                0 <= g < f + 1 && 0 <= j < channels implies #[trigger] out@[slot(
                    g,
                    j,
                    channels as int,
                )] == s16_at(*p, j, g) by {
                if g == f {
                } else {
                }
            }
        }
        f = f + 1;
    }
    out
}

/// Converts planes of any supported integer format to interleaved S16.
/// With no channels or no frames the result is empty; when the number of
/// planes differs from `num_channels` or a plane's length from
/// `num_frames`, there is no result.
pub fn convert_ref_to_s16(planes: &IntPlanes, num_channels: usize, num_frames: usize) -> (r:
    Option<Vec<i16>>)
    requires
        num_frames * num_channels <= usize::MAX,
    ensures
        num_channels == 0 || num_frames == 0 ==> (r matches Some(v) && v@.len() == 0),
        num_channels > 0 && num_frames > 0 ==> (r is Some <==> planes_match(
            *planes,
            num_channels as int,
            num_frames as int,
        )),
        match r {
            Some(v) => num_channels > 0 && num_frames > 0 ==> interleaves(
                v@,
                *planes,
                num_channels as int,
                num_frames as int,
            ),
            None => true,
        },
{
    if num_channels == 0 || num_frames == 0 {
        return Some(Vec::new());
    }
    let count = match planes {
        IntPlanes::U8(v) => v.len(),
        IntPlanes::S16(v) => v.len(),
        IntPlanes::S24(v) => v.len(),
        IntPlanes::S32(v) => v.len(),
    };
    if count != num_channels {
        return None;
    }
    let mut c: usize = 0;
    while c < num_channels
        invariant
            c <= num_channels,
            num_frames > 0,
            plane_count(*planes) == num_channels,
            forall|k: int| 0 <= k < c ==> #[trigger] plane_len(*planes, k) == num_frames,
        decreases num_channels - c,
    {
        let len = match planes {
            IntPlanes::U8(v) => v[c].len(),
            IntPlanes::S16(v) => v[c].len(),
            IntPlanes::S24(v) => v[c].len(),
            IntPlanes::S32(v) => v[c].len(),
        };
        assert(len == plane_len(*planes, c as int));
        if len != num_frames {
            return None;
        }
        c = c + 1;
    }
    Some(interleave(planes, num_channels, num_frames))
}

/// Converts a decoded buffer of a sample type known by type to interleaved
/// S16: 8-bit, 16-bit and 32-bit samples are converted; 24-bit samples are
/// refused with `UnsupportedFormat`.
pub fn convert_buffer_to_s16(planes: &IntPlanes, num_frames: usize) -> (r: Result<Vec<i16>, AudioError>)
    requires
        planes_match(*planes, plane_count(*planes), num_frames as int),
        num_frames * plane_count(*planes) <= usize::MAX,
    ensures
        planes is S24 ==> (r matches Err(AudioError::UnsupportedFormat(m))
            && m@ == "Cannot convert decoded format to S16"@),
        !(planes is S24) ==> (r matches Ok(v) && interleaves(
            v@,
            *planes,
            plane_count(*planes),
            num_frames as int,
        )),
{
    let channels = match planes {
        IntPlanes::U8(v) => v.len(),
        IntPlanes::S16(v) => v.len(),
        IntPlanes::S24(v) => {
            return Err(AudioError::UnsupportedFormat(owned("Cannot convert decoded format to S16")));
        },
        IntPlanes::S32(v) => v.len(),
    };
    Ok(interleave(planes, channels, num_frames))
}

} // verus!
