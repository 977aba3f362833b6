//! The WebSocket connection to the server: its URL, the messages it
//! carries, and the decisions of the listening loop.

use vstd::prelude::*;
use crate::text::{concat2, decimal, decimal_string, owned, trim_end_char, trim_end_matches_char};
use vstd::string::StringExecFns;

verus! {

/// The message that the server expects right after the connection opens.
pub const KEEP_ALIVE_MESSAGE: &'static str = "{\"MessageType\": \"KeepAlive\"}";

/// The seconds between two keep-alive pings.
pub const PING_INTERVAL_SECS: u64 = 30;

/// A message received from the server: its type and its data, if any.
#[derive(Debug, Clone)]
pub struct WebSocketMessage {
    pub message_type: String,
    pub data: Option<serde_json::Value>,
}

/// A message sent to the server: its type and its data.
#[derive(Debug, Clone)]
pub struct OutgoingWsMessage<T> {
    pub message_type: String,
    pub data: T,
}

/// The parts of a parsed URL that the connection uses: scheme, host, port
/// and path, as `url::Url` gives them; or the parser's message.
pub uninterp spec fn url_components(s: Seq<char>) -> Result<
    (Seq<char>, Option<Seq<char>>, Option<u16>, Seq<char>),
    Seq<char>,
>;

/// The views of parsed URL parts.
pub open spec fn parts_view(
    r: Result<(String, Option<String>, Option<u16>, String), String>,
) -> Result<(Seq<char>, Option<Seq<char>>, Option<u16>, Seq<char>), Seq<char>> {
    match r {
        Ok((scheme, host, port, path)) => Ok(
            (
                scheme@,
                match host {
                    Some(h) => Some(h@),
                    None => None,
                },
                port,
                path@,
            ),
        ),
        Err(m) => Err(m@),
    }
}

/// Parses `s` with `url::Url::parse` and reads its scheme, host, port and
/// path (`scheme`, `host_str`, `port`, `path`), or gives the parser's
/// error message. The parse is the URL library's and is named, not
/// restated.
#[verifier::external_body]
fn parse_url(s: &str) -> (r: Result<(String, Option<String>, Option<u16>, String), String>)
    ensures
        parts_view(r) == url_components(s@),
{
    match url::Url::parse(s) {
        Ok(u) => Ok(
            (u.scheme().to_string(), u.host_str().map(|h| h.to_string()), u.port(), u.path().to_string()),
        ),
        Err(e) => Err(e.to_string()),
    }
}

/// The WebSocket URL for a server URL with these parts: `wss` for an
/// `https` server and `ws` otherwise; the host, with the port only where
/// the server URL gives one; the path unless it is just `/`; then
/// `/socket` with the access token and device id in the query.
pub open spec fn ws_url(
    scheme: Seq<char>,
    host: Seq<char>,
    port: Option<u16>,
    path: Seq<char>,
    api_key: Seq<char>,
    device_id: Seq<char>,
) -> Seq<char> {
    let ws_scheme = if scheme == "https"@ {
        "wss"@
    } else {
        "ws"@
    };
    let port_part = match port {
        Some(p) => ":"@ + decimal(p as nat),
        None => Seq::empty(),
    };
    let path_part = if path == "/"@ {
        Seq::empty()
    } else {
        path
    };
    ws_scheme + "://"@ + host + port_part + path_part + "/socket?api_key="@ + api_key + "&deviceId="@
        + device_id
}

/// Builds the WebSocket URL from the parts of the server URL: an error
/// when the server URL has no host.
pub fn ws_url_from_parts(
    scheme: &str,
    host: Option<&str>,
    port: Option<u16>,
    path: &str,
    api_key: &str,
    device_id: &str,
) -> (r: Result<String, String>)
    ensures
        match host {
            None => r matches Err(m) && m@ == "Server URL missing host"@,
            Some(h) => r matches Ok(u) && u@ == ws_url(scheme@, h@, port, path@, api_key@, device_id@),
        },
{
    let h = match host {
        None => {
            return Err(owned("Server URL missing host"));
        },
        Some(h) => h,
    };
    proof {
        reveal_strlit("https");
        reveal_strlit("/");
    }
    let is_https = crate::text::str_eq(scheme, "https");
    let mut u = if is_https {
        owned("wss")
    } else {
        owned("ws")
    };
    u.append("://");
    u.append(h);
    match port {
        Some(p) => {
            u.append(":");
            let digits = decimal_string(p as u64);
            u.append(digits.as_str());
        },
        None => {},
    }
    let root = crate::text::str_eq(path, "/");
    if !root {
        u.append(path);
    }
    u.append("/socket?api_key=");
    u.append(api_key);
    u.append("&deviceId=");
    u.append(device_id);
    Ok(u)
}

/// The connection settings of the WebSocket.
#[derive(Debug, Clone)]
pub struct WebSocketHandler {
    server_url: String,
    api_key: String,
    device_id: String,
}

impl WebSocketHandler {
    /// The server's base URL.
    pub closed spec fn server(&self) -> Seq<char> {
        self.server_url@
    }

    /// The access token.
    pub closed spec fn token(&self) -> Seq<char> {
        self.api_key@
    }

    /// The device id.
    pub closed spec fn device(&self) -> Seq<char> {
        self.device_id@
    }

    /// Settings for the server at `server_url` (trailing slashes removed),
    /// with this access token and device id.
    pub fn new(server_url: &str, api_key: &str, device_id: &str) -> (h: WebSocketHandler)
        ensures
            h.server() == trim_end_char(server_url@, '/'),
            h.token() == api_key@,
            h.device() == device_id@,
    {
        WebSocketHandler {
            server_url: trim_end_matches_char(server_url, '/'),
            api_key: owned(api_key),
            device_id: owned(device_id),
        }
    }

    /// The URL to connect to: the server URL's parse error, an error when it
    /// has no host, or the WebSocket URL built from its parts.
    pub fn websocket_url(&self) -> (r: Result<String, String>)
        ensures
            match url_components(self.server()) {
                Err(m) => r matches Err(e) && e@ == m,
                Ok((scheme, None, _, _)) => r matches Err(e) && e@ == "Server URL missing host"@,
                Ok((scheme, Some(host), port, path)) => r matches Ok(u) && u@ == ws_url(
                    scheme,
                    host,
                    port,
                    path,
                    self.token(),
                    self.device(),
                ),
            },
    {
        let parts = parse_url(self.server_url.as_str());
        match parts {
            Err(m) => Err(m),
            Ok((scheme, host, port, path)) => {
                let h = match &host {
                    Some(s) => Some(s.as_str()),
                    None => None,
                };
                ws_url_from_parts(
                    scheme.as_str(),
                    h,
                    port,
                    path.as_str(),
                    self.api_key.as_str(),
                    self.device_id.as_str(),
                )
            },
        }
    }
}

/// The reason for a keep-alive that could not be sent after connecting.
pub fn keep_alive_failed(cause: &str) -> (r: String)
    ensures
        r@ == "Failed to send initial KeepAlive: "@ + cause@,
{
    concat2("Failed to send initial KeepAlive: ", cause)
}

/// How the listener treats a server message, by its type.
#[derive(Debug, Clone, Copy, PartialEq, Eq, Structural)]
pub enum MessageRoute {
    /// A keep-alive: nothing to do.
    KeepAlive,
    /// A general command to parse from the data and hand to the player.
    GeneralCommand,
    /// A play-state command to parse from the data and hand to the player.
    PlayState,
    /// A play command to parse from the data and hand to the player.
    Play,
    /// A command whose data is missing: nothing to do.
    MissingData,
    /// User data changed: noted only.
    UserDataChanged,
    /// The server's sessions: noted only.
    Sessions,
    /// The server restarts or shuts down: noted only.
    ServerStatus,
    /// A type the client does not handle.
    Unhandled,
}

/// The route of a message of type `t`, with or without data.
pub open spec fn message_route(t: Seq<char>, has_data: bool) -> MessageRoute {
    if t == "ForceKeepAlive"@ || t == "KeepAlive"@ {
        MessageRoute::KeepAlive
    } else if t == "GeneralCommand"@ {
        if has_data {
            MessageRoute::GeneralCommand
        } else {
            MessageRoute::MissingData
        }
    } else if t == "PlayState"@ || t == "Playstate"@ {
        if has_data {
            MessageRoute::PlayState
        } else {
            MessageRoute::MissingData
        }
    } else if t == "Play"@ {
        if has_data {
            MessageRoute::Play
        } else {
            MessageRoute::MissingData
        }
    } else if t == "UserDataChanged"@ {
        MessageRoute::UserDataChanged
    } else if t == "Sessions"@ {
        MessageRoute::Sessions
    } else if t == "ServerRestarting"@ || t == "ServerShuttingDown"@ {
        MessageRoute::ServerStatus
    } else {
        MessageRoute::Unhandled
    }
}

/// Routes a parsed server message by its type.
pub fn route_message(message: &WebSocketMessage) -> (r: MessageRoute)
    ensures
        r == message_route(message.message_type@, message.data is Some),
{
    let t = message.message_type.as_str();
    let has_data = message.data.is_some();
    if crate::text::str_eq(t, "ForceKeepAlive") || crate::text::str_eq(t, "KeepAlive") {
        MessageRoute::KeepAlive
    } else if crate::text::str_eq(t, "GeneralCommand") {
        if has_data {
            MessageRoute::GeneralCommand
        } else {
            MessageRoute::MissingData
        }
    } else if crate::text::str_eq(t, "PlayState") || crate::text::str_eq(t, "Playstate") {
        if has_data {
            MessageRoute::PlayState
        } else {
            MessageRoute::MissingData
        }
    } else if crate::text::str_eq(t, "Play") {
        if has_data {
            MessageRoute::Play
        } else {
            MessageRoute::MissingData
        }
    } else if crate::text::str_eq(t, "UserDataChanged") {
        MessageRoute::UserDataChanged
    } else if crate::text::str_eq(t, "Sessions") {
        MessageRoute::Sessions
    } else if crate::text::str_eq(t, "ServerRestarting") || crate::text::str_eq(
        t,
        "ServerShuttingDown",
    ) {
        MessageRoute::ServerStatus
    } else {
        MessageRoute::Unhandled
    }
}

/// What the listener's wait ended with.
#[derive(Debug, Clone, PartialEq)]
pub enum ListenerEvent {
    /// A text frame arrived.
    Text(String),
    /// A binary frame arrived.
    Binary,
    /// The server pinged.
    Ping,
    /// The server answered a ping.
    Pong,
    /// The server closed the connection.
    Close,
    /// A raw frame arrived.
    RawFrame,
    /// Reading from the connection failed.
    ReadError(String),
    /// The connection's stream ended.
    StreamEnded,
    /// The player announced a state change.
    PlayerUpdate,
    /// The player's announcements were missed for a while.
    UpdatesLagged,
    /// The player's announcements stopped for good.
    UpdatesClosed,
    /// A keep-alive ping is due.
    PingDue,
    /// The application shuts down.
    Shutdown,
}

/// What the listener does next.
#[derive(Debug, Clone, PartialEq)]
pub enum ListenerAction {
    /// Keep listening.
    Continue,
    /// Parse this text as a server message and route it; keep listening.
    HandleText(String),
    /// Answer the ping with a pong; keep listening.
    SendPong,
    /// Send a keep-alive ping; keep listening unless that fails.
    SendPing,
    /// Close the connection and stop listening without error.
    Stop,
    /// Close the connection and stop with this error.
    Fail(String),
}

/// The listener's step for an event: text is handled, a ping is answered,
/// a due ping is sent, a close frame, the end of the stream, the end of the
/// player's announcements or a shutdown stops the loop, a read error fails
/// it, and everything else is passed over.
pub fn listener_step(e: ListenerEvent) -> (a: ListenerAction)
    ensures
        match e {
            ListenerEvent::Text(t) => a == ListenerAction::HandleText(t),
            ListenerEvent::Ping => a == ListenerAction::SendPong,
            ListenerEvent::PingDue => a == ListenerAction::SendPing,
            ListenerEvent::Close => a == ListenerAction::Stop,
            ListenerEvent::StreamEnded => a == ListenerAction::Stop,
            ListenerEvent::UpdatesClosed => a == ListenerAction::Stop,
            ListenerEvent::Shutdown => a == ListenerAction::Stop,
            ListenerEvent::ReadError(m) => a matches ListenerAction::Fail(f) && f@
                == "WebSocket read error: "@ + m@,
            _ => a == ListenerAction::Continue,
        },
{
    match e {
        ListenerEvent::Text(t) => ListenerAction::HandleText(t),
        ListenerEvent::Ping => ListenerAction::SendPong,
        ListenerEvent::PingDue => ListenerAction::SendPing,
        ListenerEvent::Close => ListenerAction::Stop,
        ListenerEvent::StreamEnded => ListenerAction::Stop,
        ListenerEvent::UpdatesClosed => ListenerAction::Stop,
        ListenerEvent::Shutdown => ListenerAction::Stop,
        ListenerEvent::ReadError(m) => ListenerAction::Fail(
            concat2("WebSocket read error: ", m.as_str()),
        ),
        _ => ListenerAction::Continue,
    }
}

} // verus!
