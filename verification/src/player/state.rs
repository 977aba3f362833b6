//! Commands, state snapshots and state updates exchanged with the player.

use vstd::prelude::*;
use crate::jellyfin::models::MediaItem;

verus! {

/// The sending half of `tokio::sync::oneshot`, carried by a state request.
#[verifier::external_type_specification]
#[verifier::external_body]
#[verifier::reject_recursive_types(T)]
pub struct ExOneshotSender<T>(tokio::sync::oneshot::Sender<T>);

/// Commands that can be sent to the player task.
#[derive(Debug)]
pub enum PlayerCommand {
    PlayNow { item_ids: Vec<String>, start_index: usize },
    AddToQueue { item_ids: Vec<String> },
    ClearQueue,
    PlayPauseToggle,
    Next,
    Previous,
    GetFullState(tokio::sync::oneshot::Sender<InternalPlayerState>),
    TrackFinished,
    SetVolume(u32),
    ToggleMute,
    Shutdown,
}

/// A snapshot of the player's state.
#[derive(Debug, Clone)]
pub struct InternalPlayerState {
    pub is_playing: bool,
    pub is_paused: bool,
    pub is_muted: bool,
    pub volume_level: u32,
    pub current_item: Option<MediaItem>,
    pub position_ticks: i64,
    pub queue_ids: Vec<String>,
    pub current_queue_index: usize,
}

/// State changes broadcast by the player.
#[derive(Debug, Clone, PartialEq)]
pub enum InternalPlayerStateUpdate {
    Playing { item: MediaItem, position_ticks: i64, queue_ids: Vec<String>, queue_index: usize },
    Paused { item: MediaItem, position_ticks: i64, queue_ids: Vec<String>, queue_index: usize },
    Stopped,
    Progress { item_id: String, position_ticks: i64 },
    QueueChanged { queue_ids: Vec<String>, current_index: usize },
    VolumeChanged { volume_level: u32 },
    MuteStatusChanged { is_muted: bool },
    Error(String),
}

/// Commands from the player loop to its reporting task.
#[derive(Debug)]
pub enum ReportingCommand {
    /// Playback started or its state changed; carries the new snapshot.
    StateUpdate(InternalPlayerState),
    /// Report progress now.
    ReportProgressNow,
    /// Send the final stop report and terminate.
    StopAndReport,
}

} // verus!
