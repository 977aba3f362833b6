//! Playback reporting payloads and remote-control command models.

use vstd::prelude::*;
use std::collections::HashMap;

verus! {

/// An item in the now-playing queue.
#[derive(Debug, Clone)]
pub struct QueueItem {
    pub id: String,
    pub playlist_item_id: String,
}

/// Fields shared by the start, progress and stop reports.
#[derive(Debug, Clone)]
pub struct PlaybackReportBase {
    pub queueable_media_types: Vec<String>,
    pub can_seek: bool,
    pub item_id: String,
    pub media_source_id: String,
    pub position_ticks: i64,
    pub volume_level: i32,
    pub is_paused: bool,
    pub is_muted: bool,
    pub play_method: String,
    pub play_session_id: String,
    pub live_stream_id: Option<String>,
    pub playlist_length: i64,
    pub playlist_index: Option<i32>,
    pub shuffle_mode: String,
    pub now_playing_queue: Vec<QueueItem>,
}

/// Information specific to a stop report.
#[derive(Debug, Clone)]
pub struct PlaybackStoppedInfoInner {
    pub played_to_completion: bool,
}

/// Payload of `POST /Sessions/Playing/Stopped`.
#[derive(Debug, Clone)]
pub struct PlaybackStopReport {
    pub base: PlaybackReportBase,
    pub playback_stopped_info: PlaybackStoppedInfoInner,
}

/// Payload of `POST /Sessions/Playing/Progress`.
#[derive(Debug, Clone)]
pub struct PlaybackProgressReport {
    pub base: PlaybackReportBase,
}

/// Payload of `POST /Sessions/Playing`.
#[derive(Debug, Clone)]
pub struct PlaybackStartReport {
    pub base: PlaybackReportBase,
}

/// Payload of `POST /Sessions/Capabilities/Full`.
#[derive(Debug, Clone)]
pub struct CapabilitiesReport {
    pub playable_media_types: Vec<String>,
    pub supported_commands: Vec<String>,
    pub supports_media_control: bool,
    pub supports_persistent_identifier: bool,
    pub device_profile: Option<serde_json::Value>,
    pub app_store_url: Option<String>,
    pub icon_url: Option<String>,
}

/// Compact playback state used when building reports.
#[derive(Debug, Clone)]
pub struct PlaybackStateInfo {
    pub item_id: String,
    pub session_id: String,
    pub position_ticks: i64,
    pub duration_ticks: i64,
    pub is_paused: bool,
    pub is_shuffle: bool,
    pub queue_ids: Vec<String>,
    pub current_queue_index: Option<usize>,
}

/// A general command received over the WebSocket.
#[derive(Debug, Clone)]
pub struct GeneralCommand {
    pub name: String,
    pub arguments: Option<HashMap<String, serde_json::Value>>,
}

/// A play-state command received over the WebSocket (pause, next track, ...).
#[derive(Debug, Clone)]
pub struct PlayStateCommand {
    pub command: String,
    pub controlling_user_id: Option<String>,
}

/// A command to start or queue playback received over the WebSocket.
#[derive(Debug, Clone)]
pub struct PlayCommand {
    pub play_command: String,
    pub item_ids: Vec<String>,
    pub start_index: Option<i32>,
}

} // verus!
