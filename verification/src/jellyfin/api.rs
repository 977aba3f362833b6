//! The Jellyfin API client: credentials, request building and response
//! interpretation.
//!
//! The client holds the server's base URL (without trailing slashes), the
//! credentials once known, and a playback session id drawn at random when
//! it is made. Every API request names the server, a path and the access
//! token; the responses are judged by their status and body.

use vstd::prelude::*;
use crate::jellyfin::error::{JellyfinError, NetworkFailure};
use crate::jellyfin::http::{is_success_status, status_line, status_text, valid_status};
use crate::jellyfin::models::AuthResponse;
use crate::jellyfin::session::SessionManager;
use crate::text::{concat2, joined, owned, string_views, trim_end_char, trim_end_matches_char};
use vstd::string::StringExecFns;

verus! {

/// The fields requested with item details.
pub const DETAIL_FIELDS: &'static str = "MediaSources,Chapters,Overview,Genres,Studios,Artists,AlbumArtists";

/// The endpoint that playback starts are reported to.
pub const PLAYING_PATH: &'static str = "/Sessions/Playing";

/// The endpoint that playback progress is reported to.
pub const PROGRESS_PATH: &'static str = "/Sessions/Playing/Progress";

/// The endpoint that playback stops are reported to.
pub const STOPPED_PATH: &'static str = "/Sessions/Playing/Stopped";

/// A freshly drawn version-4 UUID in its hyphenated text form, 36
/// characters long (`uuid::Uuid::new_v4` and its `Display`). The value is
/// random; only its length is stated.
#[verifier::external_body]
fn random_session_id() -> (r: String)
    ensures
        r@.len() == 36,
{
    uuid::Uuid::new_v4().to_string()
}

/// An API request: its full URL, the access token sent with it and its
/// query parameters.
#[derive(Debug, Clone)]
pub struct ApiRequest {
    pub url: String,
    pub token: String,
    pub query: Vec<(String, String)>,
}

/// Client for interacting with the Jellyfin API.
#[derive(Debug, Clone)]
pub struct JellyfinClient {
    server_url: String,
    api_key: Option<String>,
    user_id: Option<String>,
    play_session_id: String,
}

/// The views of an optional string.
pub open spec fn opt_view(o: Option<String>) -> Option<Seq<char>> {
    match o {
        Some(s) => Some(s@),
        None => None,
    }
}

impl JellyfinClient {
    /// The server's base URL.
    pub closed spec fn server(&self) -> Seq<char> {
        self.server_url@
    }

    /// The access token, once known.
    pub closed spec fn key(&self) -> Option<Seq<char>> {
        opt_view(self.api_key)
    }

    /// The user's id, once known.
    pub closed spec fn user(&self) -> Option<Seq<char>> {
        opt_view(self.user_id)
    }

    /// The playback session id.
    pub closed spec fn session_id(&self) -> Seq<char> {
        self.play_session_id@
    }

    /// A client for the server at `server_url` (trailing slashes removed),
    /// without credentials, with a fresh random playback session id.
    pub fn new(server_url: &str) -> (c: JellyfinClient)
        ensures
            c.server() == trim_end_char(server_url@, '/'),
            c.key() is None,
            c.user() is None,
            c.session_id().len() == 36,
    {
        JellyfinClient {
            server_url: trim_end_matches_char(server_url, '/'),
            api_key: None,
            user_id: None,
            play_session_id: random_session_id(),
        }
    }

    /// The client with `api_key` as its access token.
    pub fn with_api_key(self, api_key: &str) -> (c: JellyfinClient)
        ensures
            c.key() == Some(api_key@),
            c.server() == self.server(),
            c.user() == self.user(),
            c.session_id() == self.session_id(),
    {
        JellyfinClient { api_key: Some(owned(api_key)), ..self }
    }

    /// The client with `user_id` as its user.
    pub fn with_user_id(self, user_id: &str) -> (c: JellyfinClient)
        ensures
            c.user() == Some(user_id@),
            c.server() == self.server(),
            c.key() == self.key(),
            c.session_id() == self.session_id(),
    {
        JellyfinClient { user_id: Some(owned(user_id)), ..self }
    }

    /// The playback session id of this client.
    pub fn play_session_id(&self) -> (r: &str)
        ensures
            r@ == self.session_id(),
    {
        self.play_session_id.as_str()
    }

    /// The server's base URL.
    pub fn get_server_url(&self) -> (r: &str)
        ensures
            r@ == self.server(),
    {
        self.server_url.as_str()
    }

    /// The access token, if set.
    pub fn get_api_key(&self) -> (r: Option<&str>)
        ensures
            match r {
                Some(k) => self.key() == Some(k@),
                None => self.key() is None,
            },
    {
        match &self.api_key {
            Some(k) => Some(k.as_str()),
            None => None,
        }
    }

    /// The user's id, if set.
    pub fn get_user_id(&self) -> (r: Option<&str>)
        ensures
            match r {
                Some(u) => self.user() == Some(u@),
                None => self.user() is None,
            },
    {
        match &self.user_id {
            Some(u) => Some(u.as_str()),
            None => None,
        }
    }

    /// The full URL of an API path.
    fn build_url(&self, path: &str) -> (r: String)
        ensures
            r@ == self.server() + path@,
    {
        concat2(self.server_url.as_str(), path)
    }

    /// The access token and user id: an authentication error naming the
    /// first of the two that is missing.
    fn ensure_authenticated(&self) -> (r: Result<(&str, &str), JellyfinError>)
        ensures
            credentials_result(self.key(), self.user(), r),
    {
        let api_key = match &self.api_key {
            Some(k) => k.as_str(),
            None => {
                return Err(JellyfinError::Authentication(owned("API key not set")));
            },
        };
        let user_id = match &self.user_id {
            Some(u) => u.as_str(),
            None => {
                return Err(JellyfinError::Authentication(owned("User ID not set")));
            },
        };
        Ok((api_key, user_id))
    }

    /// The request for a JSON resource at `path` with the given query.
    fn get_json_request(&self, path: &str, query: Vec<(String, String)>) -> (r: Result<
        ApiRequest,
        JellyfinError,
    >)
        ensures
            match r {
                Ok(req) => self.key() == Some(req.token@) && self.user() is Some && req.url@
                    == self.server() + path@ && req.query == query,
                Err(e) => missing_credentials(self.key(), self.user(), e),
            },
    {
        let (api_key, _) = self.ensure_authenticated()?;
        Ok(ApiRequest { url: self.build_url(path), token: owned(api_key), query })
    }

    /// The request for the user's library views.
    pub fn views_request(&self) -> (r: Result<ApiRequest, JellyfinError>)
        ensures
            match r {
                Ok(req) => self.key() == Some(req.token@) && self.user() is Some && req.url@
                    == self.server() + "/Users/"@ + self.user()->0 + "/Views"@ && req.query@.len() == 0,
                Err(e) => missing_credentials(self.key(), self.user(), e),
            },
    {
        let (_, user_id) = self.ensure_authenticated()?;
        let mut path = owned("/Users/");
        path.append(user_id);
        path.append("/Views");
        self.get_json_request(path.as_str(), Vec::new())
    }

    /// The request for the children of the folder `parent_id`.
    pub fn children_request(&self, parent_id: &str) -> (r: Result<ApiRequest, JellyfinError>)
        ensures
            match r {
                Ok(req) => {
                    &&& self.key() == Some(req.token@)
                    &&& self.user() is Some
                    &&& req.url@ == self.server() + "/Users/"@ + self.user()->0 + "/Items"@
                    &&& req.query@.len() == 1
                    &&& req.query@[0].0@ == "ParentId"@
                    &&& req.query@[0].1@ == parent_id@
                },
                Err(e) => missing_credentials(self.key(), self.user(), e),
            },
    {
        let (_, user_id) = self.ensure_authenticated()?;
        let mut path = owned("/Users/");
        path.append(user_id);
        path.append("/Items");
        let query = vec![(owned("ParentId"), owned(parent_id))];
        self.get_json_request(path.as_str(), query)
    }

    /// The request for the details of the items `item_ids`: none for an
    /// empty list (whose details are the empty list, credentials or not);
    /// otherwise the ids joined with commas and the detail fields.
    pub fn details_request(&self, item_ids: &Vec<String>) -> (r: Result<
        Option<ApiRequest>,
        JellyfinError,
    >)
        ensures
            item_ids@.len() == 0 ==> (r matches Ok(None)),
            item_ids@.len() > 0 ==> match r {
                Ok(Some(req)) => {
                    &&& self.key() == Some(req.token@)
                    &&& self.user() is Some
                    &&& req.url@ == self.server() + "/Users/"@ + self.user()->0 + "/Items"@
                    &&& req.query@.len() == 2
                    &&& req.query@[0].0@ == "Ids"@
                    &&& req.query@[0].1@ == joined(string_views(item_ids@), ","@)
                    &&& req.query@[1].0@ == "Fields"@
                    &&& req.query@[1].1@ == DETAIL_FIELDS@
                },
                Ok(None) => false,
                Err(e) => missing_credentials(self.key(), self.user(), e),
            },
    {
        if item_ids.len() == 0 {
            return Ok(None);
        }
        let (_, user_id) = self.ensure_authenticated()?;
        let ids = crate::text::join_strings(item_ids, ",");
        let mut path = owned("/Users/");
        path.append(user_id);
        path.append("/Items");
        let query = vec![(owned("Ids"), ids), (owned("Fields"), owned(DETAIL_FIELDS))];
        let req = self.get_json_request(path.as_str(), query)?;
        Ok(Some(req))
    }

    /// The request that posts a report to `path`.
    pub fn report_request(&self, path: &str) -> (r: Result<ApiRequest, JellyfinError>)
        ensures
            match r {
                Ok(req) => self.key() == Some(req.token@) && self.user() is Some && req.url@
                    == self.server() + path@ && req.query@.len() == 0,
                Err(e) => missing_credentials(self.key(), self.user(), e),
            },
    {
        let (api_key, _) = self.ensure_authenticated()?;
        Ok(ApiRequest { url: self.build_url(path), token: owned(api_key), query: Vec::new() })
    }

    /// The URL that streams the audio of `item_id` as stored, with the
    /// access token in the query. Only the access token is needed.
    pub fn get_stream_url(&self, item_id: &str) -> (r: Result<String, JellyfinError>)
        ensures
            match self.key() {
                Some(k) => (r matches Ok(u) && u@ == self.server() + "/Audio/"@ + item_id@
                    + "/stream?static=true&api_key="@ + k),
                None => (r matches Err(JellyfinError::Authentication(m)) && m@
                    == "API key not set"@),
            },
    {
        match &self.api_key {
            Some(k) => {
                let mut url = self.server_url.clone();
                url.append("/Audio/");
                url.append(item_id);
                url.append("/stream?static=true&api_key=");
                url.append(k.as_str());
                Ok(url)
            },
            None => Err(JellyfinError::Authentication(owned("API key not set"))),
        }
    }

    /// Takes the credentials of a successful authentication: its access
    /// token and its user's id.
    pub fn apply_authentication(&mut self, auth: &AuthResponse)
        ensures
            final(self).key() == Some(auth.access_token@),
            final(self).user() == Some(auth.user.id@),
            final(self).server() == old(self).server(),
            final(self).session_id() == old(self).session_id(),
    {
        self.api_key = Some(auth.access_token.clone());
        self.user_id = Some(auth.user.id.clone());
    }

    /// The session manager for device `device_id`, with this client's
    /// server, credentials and playback session id.
    pub fn session_manager(&self, device_id: &str) -> (r: Result<SessionManager, JellyfinError>)
        ensures
            match r {
                Ok(s) => {
                    &&& self.key() == Some(s.token())
                    &&& self.user() == Some(s.user())
                    &&& s.server() == self.server()
                    &&& s.device() == device_id@
                    &&& s.play_session() == self.session_id()
                },
                Err(e) => missing_credentials(self.key(), self.user(), e),
            },
    {
        let (api_key, user_id) = self.ensure_authenticated()?;
        Ok(
            SessionManager::new(
                self.server_url.clone(),
                owned(api_key),
                owned(user_id),
                owned(device_id),
                self.play_session_id.clone(),
            ),
        )
    }
}

/// A client's server URL never ends with a slash, and a client made from
/// its own server URL has the same one.
pub proof fn lemma_server_url_normalized(server_url: Seq<char>)
    ensures
        ({
            let u = trim_end_char(server_url, '/');
            &&& u.len() == 0 || u.last() != '/'
            &&& trim_end_char(u, '/') == u
        }),
{
    crate::text::lemma_trim_end_char_normal(server_url, '/');
}

/// With both an access token and a user id, no request fails for missing
/// credentials.
pub proof fn lemma_credentials_complete(key: Seq<char>, user: Seq<char>, e: JellyfinError)
    ensures
        !missing_credentials(Some(key), Some(user), e),
{
}

/// `e` is the error for missing credentials: the access token is checked
/// first, then the user id.
pub open spec fn missing_credentials(
    key: Option<Seq<char>>,
    user: Option<Seq<char>>,
    e: JellyfinError,
) -> bool {
    match key {
        None => e matches JellyfinError::Authentication(m) && m@ == "API key not set"@,
        Some(_) => user is None && (e matches JellyfinError::Authentication(m) && m@
            == "User ID not set"@),
    }
}

/// `r` gives both credentials when both are known, else the error for the
/// missing one.
pub open spec fn credentials_result(
    key: Option<Seq<char>>,
    user: Option<Seq<char>>,
    r: Result<(&str, &str), JellyfinError>,
) -> bool {
    match r {
        Ok((k, u)) => key == Some(k@) && user == Some(u@),
        Err(e) => missing_credentials(key, user, e),
    }
}

/// The error body text: the body when it could be read, else a note.
pub open spec fn error_body(body: Result<String, NetworkFailure>) -> Seq<char> {
    match body {
        Ok(b) => b@,
        Err(_) => "Failed to read error body"@,
    }
}

fn error_body_text(body: Result<String, NetworkFailure>) -> (r: String)
    ensures
        r@ == error_body(body),
{
    match body {
        Ok(b) => b,
        Err(_) => owned("Failed to read error body"),
    }
}

/// `e` is the error for a refused request (401 or 403) with this status
/// text and error body.
pub open spec fn is_auth_refusal(e: JellyfinError, status: u16, text: Seq<char>) -> bool {
    e matches JellyfinError::Authentication(m) && m@ == "Authentication failed ("@ + status_line(
        status,
    ) + "): "@ + text
}

/// Judges the response to a request for JSON: a successful status with a
/// non-empty body gives the body to parse; a successful status with an empty
/// body, or a body that could not be read, is an error; an unsuccessful
/// status is a refusal (401, 403), a missing resource (404) or an invalid
/// response, with the error body in the message.
pub fn json_response_body(status: u16, body: Result<String, NetworkFailure>) -> (r: Result<
    String,
    JellyfinError,
>)
    requires
        valid_status(status),
    ensures
        is_success_status(status) ==> match body {
            Err(f) => r == Err::<String, JellyfinError>(JellyfinError::Network(f)),
            Ok(b) => if b@.len() == 0 && status == 204 {
                r matches Err(JellyfinError::InvalidResponse(m)) && m@
                    == "Received 204 No Content, but expected JSON body"@
            } else if b@.len() == 0 {
                r matches Err(JellyfinError::InvalidResponse(m)) && m@
                    == "Empty response body received"@
            } else {
                r == Ok::<String, JellyfinError>(b)
            },
        },
        !is_success_status(status) ==> {
            let text = error_body(body);
            if status == 401 || status == 403 {
                r matches Err(e) && is_auth_refusal(e, status, text)
            } else if status == 404 {
                r matches Err(JellyfinError::NotFound(m)) && m@ == "Resource not found ("@
                    + status_line(status) + "): "@ + text
            } else {
                r matches Err(JellyfinError::InvalidResponse(m)) && m@
                    == "Request failed with status "@ + status_line(status) + ": "@ + text
            }
        },
{
    if 200 <= status && status < 300 {
        match body {
            Err(f) => Err(JellyfinError::Network(f)),
            Ok(b) => {
                if b.unicode_len() == 0 && status == 204 {
                    Err(
                        JellyfinError::InvalidResponse(
                            owned("Received 204 No Content, but expected JSON body"),
                        ),
                    )
                } else if b.unicode_len() == 0 {
                    Err(JellyfinError::InvalidResponse(owned("Empty response body received")))
                } else {
                    Ok(b)
                }
            },
        }
    } else {
        let text = error_body_text(body);
        let status_str = status_text(status);
        if status == 401 || status == 403 {
            Err(JellyfinError::Authentication(auth_failed_message(&status_str, &text)))
        } else if status == 404 {
            let mut m = owned("Resource not found (");
            m.append(status_str.as_str());
            m.append("): ");
            m.append(text.as_str());
            Err(JellyfinError::NotFound(m))
        } else {
            let mut m = owned("Request failed with status ");
            m.append(status_str.as_str());
            m.append(": ");
            m.append(text.as_str());
            Err(JellyfinError::InvalidResponse(m))
        }
    }
}

fn auth_failed_message(status_str: &String, text: &String) -> (m: String)
    ensures
        m@ == "Authentication failed ("@ + status_str@ + "): "@ + text@,
{
    let mut m = owned("Authentication failed (");
    m.append(status_str.as_str());
    m.append("): ");
    m.append(text.as_str());
    m
}

/// The error for a JSON body that could not be parsed, with the parser's
/// message.
pub fn json_parse_error(cause: &str) -> (e: JellyfinError)
    ensures
        e matches JellyfinError::InvalidResponse(m) && m@ == "Failed to parse JSON response: "@
            + cause@,
{
    JellyfinError::InvalidResponse(concat2("Failed to parse JSON response: ", cause))
}

/// Judges the response to a posted report, which succeeds only with 204 No
/// Content: any other status is a refusal (401, 403), a missing endpoint
/// (404) or an unexpected status, with the error body in the message.
pub fn no_content_response(status: u16, body: Result<String, NetworkFailure>) -> (r: Result<
    (),
    JellyfinError,
>)
    requires
        valid_status(status),
    ensures
        status == 204 ==> r is Ok,
        status != 204 ==> {
            let text = error_body(body);
            if status == 401 || status == 403 {
                r matches Err(e) && is_auth_refusal(e, status, text)
            } else if status == 404 {
                r matches Err(JellyfinError::NotFound(m)) && m@ == "Endpoint not found ("@
                    + status_line(status) + "): "@ + text
            } else {
                r matches Err(JellyfinError::InvalidResponse(m)) && m@ == "Unexpected status code "@
                    + status_line(status) + " (expected 204 No Content). Body: "@ + text
            }
        },
{
    if status == 204 {
        return Ok(());
    }
    let text = error_body_text(body);
    let status_str = status_text(status);
    if status == 401 || status == 403 {
        Err(JellyfinError::Authentication(auth_failed_message(&status_str, &text)))
    } else if status == 404 {
        let mut m = owned("Endpoint not found (");
        m.append(status_str.as_str());
        m.append("): ");
        m.append(text.as_str());
        Err(JellyfinError::NotFound(m))
    } else {
        let mut m = owned("Unexpected status code ");
        m.append(status_str.as_str());
        m.append(" (expected 204 No Content). Body: ");
        m.append(text.as_str());
        Err(JellyfinError::InvalidResponse(m))
    }
}

/// Judges the response to an empty post that expects the status
/// `expected`: that status succeeds, any other is an unexpected status
/// with the error body in the message.
pub fn expected_status_response(
    status: u16,
    expected: u16,
    body: Result<String, NetworkFailure>,
) -> (r: Result<(), JellyfinError>)
    requires
        valid_status(status),
        valid_status(expected),
    ensures
        status == expected ==> r is Ok,
        status != expected ==> (r matches Err(JellyfinError::InvalidResponse(m)) && m@
            == "Unexpected status code "@ + status_line(status) + " (expected "@ + status_line(
            expected,
        ) + "). Body: "@ + error_body(body)),
{
    if status == expected {
        return Ok(());
    }
    let text = error_body_text(body);
    let mut m = owned("Unexpected status code ");
    m.append(status_text(status).as_str());
    m.append(" (expected ");
    m.append(status_text(expected).as_str());
    m.append("). Body: ");
    m.append(text.as_str());
    Err(JellyfinError::InvalidResponse(m))
}

/// The error for a failed authentication, with its cause.
pub fn authentication_failed(cause: &str) -> (e: JellyfinError)
    ensures
        e matches JellyfinError::Authentication(m) && m@ == "Authentication failed: "@ + cause@,
{
    JellyfinError::Authentication(concat2("Authentication failed: ", cause))
}

/// The error for a capabilities report that failed, with its cause.
pub fn capabilities_failed(cause: &str) -> (e: JellyfinError)
    ensures
        e matches JellyfinError::Other(m) && m@ == "Failed to report capabilities: "@ + cause@,
{
    JellyfinError::Other(concat2("Failed to report capabilities: ", cause))
}

/// The error for a WebSocket connection that failed, with its cause.
pub fn websocket_connect_failed(cause: &str) -> (e: JellyfinError)
    ensures
        e matches JellyfinError::WebSocketError(m) && m@ == "WebSocket connection failed: "@
            + cause@,
{
    JellyfinError::WebSocketError(concat2("WebSocket connection failed: ", cause))
}

} // verus!
