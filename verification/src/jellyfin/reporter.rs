//! Playback report bodies and the full reports built from them.

use vstd::prelude::*;
use crate::jellyfin::models_playback::{
    PlaybackProgressReport, PlaybackReportBase, PlaybackStartReport, PlaybackStopReport,
    PlaybackStoppedInfoInner,
};
use crate::text::owned;

verus! {

/// What the player knows when playback of an item starts.
#[derive(Debug, Clone)]
pub struct PlaybackStartInfoBody {
    pub item_id: String,
    pub queue_item_id: Option<String>,
    pub can_seek: bool,
    pub is_muted: bool,
    pub is_paused: bool,
    pub volume_level: u32,
}

/// What the player knows when it reports progress.
#[derive(Debug, Clone)]
pub struct PlaybackProgressInfoBody {
    pub item_id: String,
    pub queue_item_id: Option<String>,
    pub can_seek: bool,
    pub is_muted: bool,
    pub is_paused: bool,
    pub volume_level: u32,
    pub position_ticks: i64,
    pub event_name: String,
}

/// What the player knows when playback of an item stops.
#[derive(Debug, Clone)]
pub struct PlaybackStopInfoBody {
    pub item_id: String,
    pub queue_item_id: Option<String>,
    pub position_ticks: i64,
}

/// The fields that every report fills with the same defaults: an audio
/// queue, direct play, sorted order, no media source, stream, length,
/// index or queue contents.
pub open spec fn has_report_defaults(b: PlaybackReportBase) -> bool {
    &&& b.queueable_media_types@.len() == 1
    &&& b.queueable_media_types@[0]@ == "Audio"@
    &&& b.media_source_id@ == ""@
    &&& b.play_method@ == "DirectPlay"@
    &&& b.live_stream_id is None
    &&& b.playlist_length == 0
    &&& b.playlist_index is None
    &&& b.shuffle_mode@ == "Sorted"@
    &&& b.now_playing_queue@.len() == 0
}

fn report_base(
    item_id: &str,
    play_session_id: &str,
    can_seek: bool,
    is_muted: bool,
    is_paused: bool,
    volume_level: i32,
    position_ticks: i64,
) -> (b: PlaybackReportBase)
    ensures
        has_report_defaults(b),
        b.item_id@ == item_id@,
        b.play_session_id@ == play_session_id@,
        b.can_seek == can_seek,
        b.is_muted == is_muted,
        b.is_paused == is_paused,
        b.volume_level == volume_level,
        b.position_ticks == position_ticks,
{
    let mut media_types: Vec<String> = Vec::new();
    media_types.push(owned("Audio"));
    PlaybackReportBase {
        queueable_media_types: media_types,
        can_seek,
        item_id: owned(item_id),
        media_source_id: owned(""),
        position_ticks,
        volume_level,
        is_paused,
        is_muted,
        play_method: owned("DirectPlay"),
        play_session_id: owned(play_session_id),
        live_stream_id: None,
        playlist_length: 0,
        playlist_index: None,
        shuffle_mode: owned("Sorted"),
        now_playing_queue: Vec::new(),
    }
}

/// The start report sent for `start_info`: position zero, the body's
/// flags, its volume reinterpreted as `i32`, and the client's session id.
pub fn playback_start_report(start_info: &PlaybackStartInfoBody, play_session_id: &str) -> (r:
    PlaybackStartReport)
    ensures
        has_report_defaults(r.base),
        r.base.item_id@ == start_info.item_id@,
        r.base.play_session_id@ == play_session_id@,
        r.base.can_seek == start_info.can_seek,
        r.base.is_muted == start_info.is_muted,
        r.base.is_paused == start_info.is_paused,
        r.base.volume_level == start_info.volume_level as i32,
        r.base.position_ticks == 0,
{
    let base = report_base(
        start_info.item_id.as_str(),
        play_session_id,
        start_info.can_seek,
        start_info.is_muted,
        start_info.is_paused,
        start_info.volume_level as i32,
        0,
    );
    PlaybackStartReport { base }
}

/// The progress report sent for `progress_info`: its position and flags,
/// its volume reinterpreted as `i32`, and the client's session id.
pub fn playback_progress_report(
    progress_info: &PlaybackProgressInfoBody,
    play_session_id: &str,
) -> (r: PlaybackProgressReport)
    ensures
        has_report_defaults(r.base),
        r.base.item_id@ == progress_info.item_id@,
        r.base.play_session_id@ == play_session_id@,
        r.base.can_seek == progress_info.can_seek,
        r.base.is_muted == progress_info.is_muted,
        r.base.is_paused == progress_info.is_paused,
        r.base.volume_level == progress_info.volume_level as i32,
        r.base.position_ticks == progress_info.position_ticks,
{
    let base = report_base(
        progress_info.item_id.as_str(),
        play_session_id,
        progress_info.can_seek,
        progress_info.is_muted,
        progress_info.is_paused,
        progress_info.volume_level as i32,
        progress_info.position_ticks,
    );
    PlaybackProgressReport { base }
}

/// The stop report sent for `stop_info`: its position, a seekable, unmuted,
/// unpaused state at full volume, and "not played to completion".
pub fn playback_stop_report(stop_info: &PlaybackStopInfoBody, play_session_id: &str) -> (r:
    PlaybackStopReport)
    ensures
        has_report_defaults(r.base),
        r.base.item_id@ == stop_info.item_id@,
        r.base.play_session_id@ == play_session_id@,
        r.base.can_seek,
        !r.base.is_muted,
        !r.base.is_paused,
        r.base.volume_level == 100,
        r.base.position_ticks == stop_info.position_ticks,
        !r.playback_stopped_info.played_to_completion,
{
    let base = report_base(
        stop_info.item_id.as_str(),
        play_session_id,
        true,
        false,
        false,
        100,
        stop_info.position_ticks,
    );
    PlaybackStopReport {
        base,
        playback_stopped_info: PlaybackStoppedInfoInner { played_to_completion: false },
    }
}

} // verus!
