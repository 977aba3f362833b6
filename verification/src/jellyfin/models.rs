//! Data models for Jellyfin API requests and responses.

use vstd::prelude::*;
use crate::text::{copy_opt_string, owned};

verus! {

/// A media item in a Jellyfin library.
#[derive(Debug, Clone, PartialEq)]
pub struct MediaItem {
    pub id: String,
    pub name: String,
    pub media_type: String,
    pub overview: Option<String>,
    pub path: Option<String>,
    pub is_folder: bool,
    pub run_time_ticks: Option<i64>,
}

impl MediaItem {
    /// A field-by-field copy whose equality with `self` is known to the verifier.
    pub fn copy(&self) -> (r: MediaItem)
        ensures
            r == *self,
    {
        MediaItem {
            id: self.id.clone(),
            name: self.name.clone(),
            media_type: self.media_type.clone(),
            overview: copy_opt_string(&self.overview),
            path: copy_opt_string(&self.path),
            is_folder: self.is_folder,
            run_time_ticks: self.run_time_ticks,
        }
    }
}

/// A page of media items with the server's total count.
#[derive(Debug)]
pub struct ItemsResponse {
    pub items: Vec<MediaItem>,
    pub total_record_count: i32,
}

/// The body of a username/password authentication request.
#[derive(Debug)]
pub struct AuthRequest {
    pub username: String,
    pub pw: String,
}

impl AuthRequest {
    /// Builds the request body from the user's credentials.
    pub fn new(username: &str, password: &str) -> (r: AuthRequest)
        ensures
            r.username@ == username@,
            r.pw@ == password@,
    {
        AuthRequest { username: owned(username), pw: owned(password) }
    }
}

/// The server's answer to a successful authentication.
#[derive(Debug)]
pub struct AuthResponse {
    pub user: User,
    pub access_token: String,
    pub server_id: String,
}

/// A Jellyfin user.
#[derive(Debug)]
pub struct User {
    pub id: String,
    pub name: String,
    pub server_name: Option<String>,
}

/// Media types supported by the client.
#[derive(Debug, Clone, Copy, PartialEq, Eq, Structural)]
pub enum MediaType {
    Audio,
    Video,
    Photo,
    Book,
    Unknown,
}

/// General command types a client may advertise or receive.
#[derive(Debug, Clone, Copy, PartialEq, Eq, Structural)]
pub enum GeneralCommandType {
    MoveUp,
    MoveDown,
    MoveLeft,
    MoveRight,
    PageUp,
    PageDown,
    PreviousLetter,
    NextLetter,
    ToggleOsd,
    ToggleContextMenu,
    Select,
    Back,
    TakeScreenshot,
    SendKey,
    SendString,
    GoHome,
    GoToSettings,
    ToggleFullscreen,
    DisplayContent,
    GoToSearch,
    DisplayMessage,
    ChannelUp,
    ChannelDown,
    Guide,
    ToggleStats,
    ToggleOsdMenu,
    Play,
    Pause,
    Stop,
    Seek,
    NextTrack,
    PreviousTrack,
    SetVolume,
    VolumeUp,
    VolumeDown,
    Mute,
    Unmute,
    ToggleMute,
    SetAudioStreamIndex,
    SetSubtitleStreamIndex,
    SetRepeatMode,
    SetShuffleQueue,
    PlayState,
    PlayNext,
    PlayMediaSource,
    PlayTrailers,
    SetMaxStreamingBitrate,
}

/// The client capabilities sent to the server.
#[derive(Debug, Clone)]
pub struct ClientCapabilitiesDto {
    pub playable_media_types: Option<Vec<MediaType>>,
    pub supported_commands: Option<Vec<GeneralCommandType>>,
    pub supports_media_control: bool,
    pub supports_persistent_identifier: bool,
    pub device_profile: Option<serde_json::Value>,
    pub app_store_url: Option<String>,
    pub icon_url: Option<String>,
}

} // verus!
