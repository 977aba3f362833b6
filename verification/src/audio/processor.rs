//! Splitting a decoded buffer into the fixed-size input chunks a resampler
//! consumes, and choosing the samples of a buffer that needs no resampling.

use vstd::prelude::*;
use crate::audio::sample_converter::{convert_buffer_to_s16, interleaves, plane_count, planes_match, IntPlanes};

verus! {

/// The next input chunk `[start, end)` after `processed` of `total` frames
/// when the resampler asks for `needed` frames; none when no frame remains
/// or none is asked for.
pub fn next_resample_chunk(processed: usize, total: usize, needed: usize) -> (r: Option<
    (usize, usize),
>)
    requires
        processed <= total,
    ensures
        processed == total || needed == 0 <==> r is None,
        r matches Some((s, e)) ==> s == processed && e == processed + if total - processed
            < needed {
            total - processed
        } else {
            needed as int
        } && processed < e <= total,
{
    let remaining = total - processed;
    let chunk = if remaining < needed { remaining } else { needed };
    if chunk == 0 {
        return None;
    }
    Some((processed, processed + chunk))
}

} // verus!

verus! {

/// The samples to write for a decoded integer buffer when no resampling is
/// needed: its interleaved S16 samples, or none (the buffer is skipped) when
/// its format cannot be converted or it holds no samples.
pub fn direct_samples(planes: &IntPlanes, num_frames: usize) -> (r: Option<Vec<i16>>)
    requires
        planes_match(*planes, plane_count(*planes), num_frames as int),
        num_frames * plane_count(*planes) <= usize::MAX,
    ensures
        planes is S24 ==> r is None,
        !(planes is S24) && num_frames * plane_count(*planes) == 0 ==> r is None,
        !(planes is S24) && num_frames * plane_count(*planes) > 0 ==> (r matches Some(v)
            && interleaves(v@, *planes, plane_count(*planes), num_frames as int)),
{
    match convert_buffer_to_s16(planes, num_frames) {
        Ok(v) => {
            if v.len() == 0 {
                None
            } else {
                Some(v)
            }
        },
        Err(_) => None,
    }
}

} // verus!
