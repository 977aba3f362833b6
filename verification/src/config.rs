//! Application settings: defaults, validation and the settings file's place.

use vstd::prelude::*;
use crate::text::{concat2, owned};
use vstd::string::StringExecFns;

verus! {

/// The server URL used when none is configured.
pub const DEFAULT_SERVER_URL: &'static str = "http://localhost:8096";

/// The audio device used when none is configured.
pub const DEFAULT_ALSA_DEVICE: &'static str = "default";

/// Application settings.
#[derive(Debug, Clone, PartialEq)]
pub struct Settings {
    /// Jellyfin server URL.
    pub server_url: String,
    /// API key for authentication (optional if using username/password).
    pub api_key: Option<String>,
    /// Username for Jellyfin login.
    pub username: Option<String>,
    /// ALSA device to use for audio playback.
    pub alsa_device: String,
    /// User ID for Jellyfin requests.
    pub user_id: Option<String>,
    /// Device ID that identifies this client to the server.
    pub device_id: Option<String>,
}

/// The audio device that settings without one use.
pub fn default_alsa_device() -> (r: String)
    ensures
        r@ == DEFAULT_ALSA_DEVICE@,
{
    owned(DEFAULT_ALSA_DEVICE)
}

/// Error types for configuration operations.
#[derive(Debug, Clone, PartialEq)]
pub enum ConfigError {
    IoError(String),
    ParseError(String),
    ValidationError(String),
}

/// The message of a configuration error: a fixed prefix per kind, then the cause.
pub open spec fn config_error_message(e: ConfigError) -> Seq<char> {
    match e {
        ConfigError::IoError(m) => "I/O error: "@ + m@,
        ConfigError::ParseError(m) => "Parse error: "@ + m@,
        ConfigError::ValidationError(m) => "Validation error: "@ + m@,
    }
}

impl ConfigError {
    /// The human-readable message of this error.
    pub fn message(&self) -> (r: String)
        ensures
            r@ == config_error_message(*self),
    {
        match self {
            ConfigError::IoError(m) => concat2("I/O error: ", m.as_str()),
            ConfigError::ParseError(m) => concat2("Parse error: ", m.as_str()),
            ConfigError::ValidationError(m) => concat2("Validation error: ", m.as_str()),
        }
    }
}

/// The settings are usable: a server URL, and a way to authenticate.
pub open spec fn settings_valid(s: Settings) -> bool {
    s.server_url@.len() > 0 && (s.api_key is Some || s.username is Some)
}

/// Settings are usable exactly when they name a server and give at least
/// one way to authenticate; in particular an API key together with a
/// username is usable.
pub proof fn lemma_valid_with_any_credential(s: Settings)
    ensures
        s.server_url@.len() > 0 && s.api_key is Some ==> settings_valid(s),
        s.server_url@.len() > 0 && s.username is Some ==> settings_valid(s),
        s.api_key is None && s.username is None ==> !settings_valid(s),
        s.server_url@.len() == 0 ==> !settings_valid(s),
{
}

impl Settings {
    /// The default settings: the local server, the default device, and no
    /// credentials or ids.
    pub fn default() -> (s: Settings)
        ensures
            s.server_url@ == DEFAULT_SERVER_URL@,
            s.api_key is None,
            s.username is None,
            s.alsa_device@ == DEFAULT_ALSA_DEVICE@,
            s.user_id is None,
            s.device_id is None,
    {
        Settings {
            server_url: owned(DEFAULT_SERVER_URL),
            api_key: None,
            username: None,
            alsa_device: default_alsa_device(),
            user_id: None,
            device_id: None,
        }
    }

    /// Checks the settings: the server URL must not be empty, and an API
    /// key or a username must be given.
    pub fn validate(&self) -> (r: Result<(), ConfigError>)
        ensures
            r is Ok <==> settings_valid(*self),
            self.server_url@.len() > 0 && (self.api_key is Some || self.username is Some) ==> r is Ok,
            r is Ok ==> self.server_url@.len() > 0 && (self.api_key is Some
                || self.username is Some),
            self.server_url@.len() == 0 ==> (r matches Err(ConfigError::ValidationError(m)) && m@
                == "Server URL cannot be empty"@),
            self.server_url@.len() > 0 && self.api_key is None && self.username is None ==> (
            r matches Err(ConfigError::ValidationError(m)) && m@
                == "Either API key or username must be provided"@),
    {
        if self.server_url.unicode_len() == 0 {
            return Err(ConfigError::ValidationError(owned("Server URL cannot be empty")));
        }
        if self.api_key.is_none() && self.username.is_none() {
            return Err(
                ConfigError::ValidationError(owned("Either API key or username must be provided")),
            );
        }
        Ok(())
    }

    /// The settings file's path: `.config/jellycli/config.json` under the
    /// home directory, or under the working directory when there is no home.
    pub fn default_path() -> (r: String)
        ensures
            exists|home: Option<String>| r@ == settings_path(home),
    {
        let home = home_directory();
        settings_path_under(home)
    }
}

/// The user's home directory (`dirs::home_dir`, converted lossily to a
/// string). It depends on the machine, so nothing is stated of it.
#[verifier::external_body]
fn home_directory() -> (r: Option<String>) {
    match dirs::home_dir() {
        Some(p) => Some(p.to_string_lossy().into_owned()),
        None => None,
    }
}

/// `part` joined to the path `base`, with a separator unless `base` is
/// empty or already ends with one.
pub open spec fn path_join(base: Seq<char>, part: Seq<char>) -> Seq<char> {
    if base.len() == 0 || base.last() == '/' {
        base + part
    } else {
        base + "/"@ + part
    }
}

/// The settings path under a home directory, or under `.` without one.
pub open spec fn settings_path(home: Option<String>) -> Seq<char> {
    let base = match home {
        Some(h) => h@,
        None => "."@,
    };
    path_join(path_join(path_join(base, ".config"@), "jellycli"@), "config.json"@)
}

fn join_path(base: String, part: &str) -> (r: String)
    ensures
        r@ == path_join(base@, part@),
{
    let ends = crate::text::ends_with_char(base.as_str(), '/');
    let mut r = base;
    if r.unicode_len() == 0 || ends {
        r.append(part);
    } else {
        r.append("/");
        r.append(part);
    }
    r
}

/// The settings path under the home directory `home`, or under `.`.
pub fn settings_path_under(home: Option<String>) -> (r: String)
    ensures
        r@ == settings_path(home),
{
    let base = match home {
        Some(h) => h,
        None => owned("."),
    };
    let a = join_path(base, ".config");
    let b = join_path(a, "jellycli");
    join_path(b, "config.json")
}

} // verus!
