//! Authentication by user name and password.

use vstd::prelude::*;
use crate::jellyfin::http::{header_value_ok, is_valid_header_value};
use crate::jellyfin::models::AuthRequest;
use crate::text::{concat2, owned, trim_end_char, trim_end_matches_char};
use vstd::string::StringExecFns;

verus! {

/// The authorization header that identifies this client when it logs in.
pub const LOGIN_AUTHORIZATION: &'static str = "MediaBrowser Client=\"r-jellycli\", Device=\"HeadlessPlayer\", DeviceId=\"r-jellycli\", Version=\"0.1.0\", DeviceName=\"Jellyfin CLI Player\"";

/// A login request, ready to post as JSON.
#[derive(Debug)]
pub struct LoginRequest {
    pub url: String,
    pub authorization: String,
    pub body: AuthRequest,
}

/// The login request for `username` and `password` at the server
/// `server_url` (trailing slashes removed).
pub fn login_request(server_url: &str, username: &str, password: &str) -> (r: LoginRequest)
    ensures
        r.url@ == trim_end_char(server_url@, '/') + "/Users/authenticatebyname"@,
        r.authorization@ == LOGIN_AUTHORIZATION@,
        r.body.username@ == username@,
        r.body.pw@ == password@,
{
    let mut url = trim_end_matches_char(server_url, '/');
    url.append("/Users/authenticatebyname");
    LoginRequest { url, authorization: owned(LOGIN_AUTHORIZATION), body: AuthRequest::new(username, password) }
}

/// Judges the login response: 200 gives the body to parse; any other
/// status fails with the body as the reason.
pub fn login_response_body(status: u16, body: String) -> (r: Result<String, String>)
    ensures
        status == 200 ==> r == Ok::<String, String>(body),
        status != 200 ==> (r matches Err(m) && m@ == "Login failed: "@ + body@),
{
    if status == 200 {
        Ok(body)
    } else {
        Err(concat2("Login failed: ", body.as_str()))
    }
}

/// The reason for a login response that could not be parsed.
pub fn login_parse_error(cause: &str) -> (r: String)
    ensures
        r@ == "Failed to parse auth response: "@ + cause@,
{
    concat2("Failed to parse auth response: ", cause)
}

/// The headers that authenticate a request with `token`. The token must be
/// a valid header value.
pub fn create_auth_header(token: &str) -> (r: Vec<(String, String)>)
    requires
        header_value_ok(token@),
    ensures
        r@.len() == 1,
        r@[0].0@ == "X-Emby-Token"@,
        r@[0].1@ == token@,
{
    let valid = is_valid_header_value(token);
    assert(valid);
    vec![(owned("X-Emby-Token"), owned(token))]
}

} // verus!
