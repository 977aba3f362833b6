//! The session with the server: what the client reports about itself.

use vstd::prelude::*;
use crate::jellyfin::http::is_error_status;
use crate::jellyfin::models::{ClientCapabilitiesDto, GeneralCommandType, MediaType};
use crate::text::owned;
use vstd::string::StringExecFns;

verus! {

/// The client name that the server shows.
pub const CLIENT_NAME: &'static str = "r-jellycli";

/// The client version that the server shows.
pub const CLIENT_VERSION: &'static str = "0.1.0";

/// The device name used when the machine's host name cannot be read.
pub const FALLBACK_DEVICE_NAME: &'static str = "rust-client";

/// The session's identity towards the server.
#[derive(Debug, Clone)]
pub struct SessionManager {
    server_url: String,
    api_key: String,
    user_id: String,
    device_id: String,
    play_session_id: String,
}

/// The authorization header of a capabilities report from device `device`
/// with device id `device_id`.
pub open spec fn capabilities_auth_header(device: Seq<char>, device_id: Seq<char>) -> Seq<char> {
    "MediaBrowser Client=\""@ + CLIENT_NAME@ + "\", Device=\""@ + device + "\", DeviceId=\""@
        + device_id + "\", Version=\""@ + CLIENT_VERSION@ + "\""@
}

/// The device name for a host name that could or could not be read.
pub open spec fn device_name(host: Option<String>) -> Seq<char> {
    match host {
        Some(h) => h@,
        None => FALLBACK_DEVICE_NAME@,
    }
}

/// The commands that the client advertises: play state, play, shuffle,
/// repeat and play-next.
pub open spec fn advertised_commands() -> Seq<GeneralCommandType> {
    seq![
        GeneralCommandType::PlayState,
        GeneralCommandType::Play,
        GeneralCommandType::SetShuffleQueue,
        GeneralCommandType::SetRepeatMode,
        GeneralCommandType::PlayNext,
    ]
}

/// A capabilities report, ready to send.
#[derive(Debug, Clone)]
pub struct CapabilitiesRequest {
    pub url: String,
    pub token: String,
    pub authorization: String,
    pub payload: ClientCapabilitiesDto,
}

/// The machine's host name, when it can be read (`hostname::get`, converted
/// lossily to a string). It depends on the machine, so nothing is stated
/// of it.
#[verifier::external_body]
fn machine_host_name() -> (r: Option<String>) {
    match hostname::get() {
        Ok(h) => Some(h.to_string_lossy().to_string()),
        Err(_) => None,
    }
}

impl SessionManager {
    /// The server's base URL.
    pub closed spec fn server(&self) -> Seq<char> {
        self.server_url@
    }

    /// The access token.
    pub closed spec fn token(&self) -> Seq<char> {
        self.api_key@
    }

    /// The user's id.
    pub closed spec fn user(&self) -> Seq<char> {
        self.user_id@
    }

    /// The device id.
    pub closed spec fn device(&self) -> Seq<char> {
        self.device_id@
    }

    /// The playback session id.
    pub closed spec fn play_session(&self) -> Seq<char> {
        self.play_session_id@
    }

    /// A session manager for the given server, credentials and ids.
    pub fn new(
        server_url: String,
        api_key: String,
        user_id: String,
        device_id: String,
        play_session_id: String,
    ) -> (s: SessionManager)
        ensures
            s.server() == server_url@,
            s.token() == api_key@,
            s.user() == user_id@,
            s.device() == device_id@,
            s.play_session() == play_session_id@,
    {
        SessionManager { server_url, api_key, user_id, device_id, play_session_id }
    }

    /// The device id.
    pub fn get_device_id(&self) -> (r: String)
        ensures
            r@ == self.device(),
    {
        self.device_id.clone()
    }

    /// The authorization header naming the device `host` (or the fallback
    /// name when the host name could not be read) and this device id.
    pub fn authorization_header(&self, host: Option<String>) -> (r: String)
        ensures
            r@ == capabilities_auth_header(device_name(host), self.device()),
    {
        let device = match host {
            Some(h) => h,
            None => owned(FALLBACK_DEVICE_NAME),
        };
        let mut r = owned("MediaBrowser Client=\"");
        r.append(CLIENT_NAME);
        r.append("\", Device=\"");
        r.append(device.as_str());
        r.append("\", DeviceId=\"");
        r.append(self.device_id.as_str());
        r.append("\", Version=\"");
        r.append(CLIENT_VERSION);
        r.append("\"");
        r
    }

    /// The capabilities report: posted to the server's full-capabilities
    /// endpoint with the access token, an authorization header naming this
    /// machine, and the advertised capabilities.
    pub fn capabilities_request(&self) -> (r: CapabilitiesRequest)
        ensures
            r.url@ == self.server() + "/Sessions/Capabilities/Full"@,
            r.token@ == self.token(),
            exists|host: Option<String>|
                r.authorization@ == capabilities_auth_header(device_name(host), self.device()),
            is_capabilities_payload(r.payload),
    {
        let mut url = self.server_url.clone();
        url.append("/Sessions/Capabilities/Full");
        let host = machine_host_name();
        let authorization = self.authorization_header(host);
        CapabilitiesRequest {
            url,
            token: self.api_key.clone(),
            authorization,
            payload: capabilities_payload(),
        }
    }
}

/// The advertised capabilities: audio only, the advertised commands, media
/// control without a persistent identifier, and no profile or URLs.
pub open spec fn is_capabilities_payload(p: ClientCapabilitiesDto) -> bool {
    &&& p.playable_media_types matches Some(v) && v@ == seq![MediaType::Audio]
    &&& p.supported_commands matches Some(v) && v@ == advertised_commands()
    &&& p.supports_media_control
    &&& !p.supports_persistent_identifier
    &&& p.device_profile is None
    &&& p.app_store_url is None
    &&& p.icon_url is None
}

/// The capabilities that the client advertises.
pub fn capabilities_payload() -> (p: ClientCapabilitiesDto)
    ensures
        is_capabilities_payload(p),
{
    let commands = vec![
        GeneralCommandType::PlayState,
        GeneralCommandType::Play,
        GeneralCommandType::SetShuffleQueue,
        GeneralCommandType::SetRepeatMode,
        GeneralCommandType::PlayNext,
    ];
    let types = vec![MediaType::Audio];
    proof {
        assert(commands@ =~= advertised_commands());
        assert(types@ =~= seq![MediaType::Audio]);
    }
    ClientCapabilitiesDto {
        playable_media_types: Some(types),
        supported_commands: Some(commands),
        supports_media_control: true,
        supports_persistent_identifier: false,
        device_profile: None,
        app_store_url: None,
        icon_url: None,
    }
}

/// Whether the server accepted a capabilities report with this status: the
/// expected 204 does, and so does any other status that is not a client or
/// server error.
pub fn capabilities_accepted(status: u16) -> (r: bool)
    ensures
        r == !is_error_status(status),
{
    if status == 204 {
        true
    } else {
        !(400 <= status && status < 600)
    }
}

} // verus!
