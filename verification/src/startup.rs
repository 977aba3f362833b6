//! The decisions taken when the client starts: which settings win, where
//! the password comes from, how the client authenticates, and which item
//! is chosen without asking.

use vstd::prelude::*;
use crate::config::Settings;
use crate::text::{owned, str_eq};
use crate::ui::{digits_value, parse_usize, parses_as_usize, unsigned_digits};
use vstd::string::StringExecFns;

verus! {

/// The first present value of two, else the fallback.
pub open spec fn first_of<T>(a: Option<T>, b: Option<T>, fallback: Option<T>) -> Option<T> {
    match a {
        Some(x) => Some(x),
        None => match b {
            Some(y) => Some(y),
            None => fallback,
        },
    }
}

/// The precedence of settings sources: a value from the command line always
/// wins; without one, the environment's wins; without both, the fallback
/// stands.
pub proof fn lemma_command_line_first<T>(a: Option<T>, b: Option<T>, fallback: Option<T>)
    ensures
        a is Some ==> first_of(a, b, fallback) == a,
        a is None && b is Some ==> first_of(a, b, fallback) == b,
        a is None && b is None ==> first_of(a, b, fallback) == fallback,
{
}

fn pick(a: Option<String>, b: Option<String>, fallback: Option<String>) -> (r: Option<String>)
    ensures
        r == first_of(a, b, fallback),
{
    match a {
        Some(x) => Some(x),
        None => match b {
            Some(y) => Some(y),
            None => fallback,
        },
    }
}

/// Values that override the settings file, each from the command line and
/// from the environment.
#[derive(Debug, Clone)]
pub struct Overrides {
    pub arg_server_url: Option<String>,
    pub env_server_url: Option<String>,
    pub arg_api_key: Option<String>,
    pub env_api_key: Option<String>,
    pub arg_username: Option<String>,
    pub env_username: Option<String>,
}

/// Applies the overrides: the command line wins over the environment, which
/// wins over the settings file.
pub fn apply_overrides(settings: Settings, o: Overrides) -> (r: Settings)
    ensures
        r.server_url == first_of(o.arg_server_url, o.env_server_url, Some(settings.server_url))->0,
        o.arg_server_url is Some ==> r.server_url == o.arg_server_url->0,
        o.arg_server_url is None && o.env_server_url is Some ==> r.server_url == o.env_server_url->0,
        o.arg_server_url is None && o.env_server_url is None ==> r.server_url == settings.server_url,
        o.arg_api_key is Some ==> r.api_key == o.arg_api_key,
        o.arg_api_key is None && o.env_api_key is Some ==> r.api_key == o.env_api_key,
        o.arg_api_key is None && o.env_api_key is None ==> r.api_key == settings.api_key,
        o.arg_username is Some ==> r.username == o.arg_username,
        o.arg_username is None && o.env_username is Some ==> r.username == o.env_username,
        o.arg_username is None && o.env_username is None ==> r.username == settings.username,
        r.api_key == first_of(o.arg_api_key, o.env_api_key, settings.api_key),
        r.username == first_of(o.arg_username, o.env_username, settings.username),
        r.alsa_device == settings.alsa_device,
        r.user_id == settings.user_id,
        r.device_id == settings.device_id,
{
    let server_url = match pick(o.arg_server_url, o.env_server_url, None) {
        Some(u) => u,
        None => settings.server_url,
    };
    Settings {
        server_url,
        api_key: pick(o.arg_api_key, o.env_api_key, settings.api_key),
        username: pick(o.arg_username, o.env_username, settings.username),
        alsa_device: settings.alsa_device,
        user_id: settings.user_id,
        device_id: settings.device_id,
    }
}

/// Saved login credentials: user, password and server.
#[derive(Debug, Clone)]
pub struct SavedCredentials {
    pub username: String,
    pub password: String,
    pub server_url: String,
}

/// Applies saved credentials: their server and user replace the settings'
/// unless the command line named them.
pub fn apply_saved_credentials(
    settings: Settings,
    creds: &SavedCredentials,
    arg_server_given: bool,
    arg_username_given: bool,
) -> (r: Settings)
    ensures
        r.server_url == if arg_server_given {
            settings.server_url
        } else {
            creds.server_url
        },
        r.username == if arg_username_given {
            settings.username
        } else {
            Some(creds.username)
        },
        r.api_key == settings.api_key,
        r.alsa_device == settings.alsa_device,
        r.user_id == settings.user_id,
        r.device_id == settings.device_id,
{
    let mut r = settings;
    if !arg_server_given {
        r.server_url = creds.server_url.clone();
    }
    if !arg_username_given {
        r.username = Some(creds.username.clone());
    }
    r
}

/// Where the password comes from.
#[derive(Debug, Clone, PartialEq)]
pub enum PasswordSource {
    /// A password that was given.
    Given(String),
    /// Ask the user.
    Prompt,
    /// No password is needed.
    NotNeeded,
}

/// The password: from the command line, else the environment, else the
/// saved credentials; without any, the user is asked when a user name but
/// no API key is configured, and no password is needed otherwise.
pub fn password_source(
    arg: Option<String>,
    env: Option<String>,
    saved: Option<String>,
    settings: &Settings,
) -> (r: PasswordSource)
    ensures
        arg is Some ==> r == PasswordSource::Given(arg->0),
        arg is None && env is Some ==> r == PasswordSource::Given(env->0),
        arg is None && env is None && saved is Some ==> r == PasswordSource::Given(saved->0),
        match first_of(arg, env, saved) {
            Some(p) => r == PasswordSource::Given(p),
            None => if settings.username is Some && settings.api_key is None {
                r == PasswordSource::Prompt
            } else {
                r == PasswordSource::NotNeeded
            },
        },
{
    match pick(arg, env, saved) {
        Some(p) => PasswordSource::Given(p),
        None => {
            if settings.username.is_some() && settings.api_key.is_none() {
                PasswordSource::Prompt
            } else {
                PasswordSource::NotNeeded
            }
        },
    }
}

/// The audio device: the command line's unless it is `default`, else the
/// environment's, else `default`.
pub fn choose_alsa_device(arg: String, env: Option<String>) -> (r: String)
    ensures
        arg@ != "default"@ ==> r == arg,
        arg@ == "default"@ ==> r@ == match env {
            Some(e) => e@,
            None => "default"@,
        },
{
    if !str_eq(arg.as_str(), "default") {
        arg
    } else {
        match env {
            Some(e) => e,
            None => owned("default"),
        }
    }
}

/// The device id: the configured one, else the freshly drawn `fresh`; and
/// whether the settings changed and should be saved.
pub fn ensure_device_id(settings: Settings, fresh: String) -> (r: (Settings, bool))
    ensures
        r.1 == settings.device_id is None,
        r.0.device_id == match settings.device_id {
            Some(d) => Some(d),
            None => Some(fresh),
        },
        r.0.server_url == settings.server_url,
        r.0.api_key == settings.api_key,
        r.0.username == settings.username,
        r.0.user_id == settings.user_id,
        r.0.alsa_device == settings.alsa_device,
{
    let mut s = settings;
    if s.device_id.is_none() {
        s.device_id = Some(fresh);
        (s, true)
    } else {
        (s, false)
    }
}

/// How the client authenticates.
#[derive(Debug, Clone, PartialEq)]
pub enum AuthPlan {
    /// Log in with this user name and the password.
    Login { username: String },
    /// Use the stored API key and user id.
    Stored { api_key: String, user_id: String },
}

/// The authentication plan: with a password given, log in with the user
/// name; else use a stored API key, which needs a stored user id; else
/// fail, naming what is missing.
pub fn auth_plan(password_given: bool, settings: &Settings) -> (r: Result<AuthPlan, String>)
    ensures
        password_given ==> match settings.username {
            Some(u) => r == Ok::<AuthPlan, String>(AuthPlan::Login { username: u }),
            None => (r matches Err(m) && m@
                == "Password provided but no username specified or found."@),
        },
        !password_given ==> match settings.api_key {
            Some(k) => match settings.user_id {
                Some(u) => r == Ok::<AuthPlan, String>(AuthPlan::Stored { api_key: k, user_id: u }),
                None => (r matches Err(m) && m@
                    == "API key found in settings, but User ID is missing. Please re-authenticate."@),
            },
            None => if settings.username is Some {
                (r matches Err(m) && m@
                    == "Username specified, but no password provided and no API key found in settings."@)
            } else {
                (r matches Err(m) && m@
                    == "Cannot authenticate: No username, password, or API key provided or found."@)
            },
        },
{
    if password_given {
        match &settings.username {
            Some(u) => Ok(AuthPlan::Login { username: u.clone() }),
            None => Err(owned("Password provided but no username specified or found.")),
        }
    } else {
        match &settings.api_key {
            Some(k) => match &settings.user_id {
                Some(u) => Ok(AuthPlan::Stored { api_key: k.clone(), user_id: u.clone() }),
                None => Err(
                    owned(
                        "API key found in settings, but User ID is missing. Please re-authenticate.",
                    ),
                ),
            },
            None => {
                if settings.username.is_some() {
                    Err(
                        owned(
                            "Username specified, but no password provided and no API key found in settings.",
                        ),
                    )
                } else {
                    Err(
                        owned(
                            "Cannot authenticate: No username, password, or API key provided or found.",
                        ),
                    )
                }
            },
        }
    }
}

/// The index of the first library view named `Music`.
pub fn music_library_index(names: &Vec<String>) -> (r: Option<usize>)
    ensures
        match r {
            Some(i) => i < names@.len() && names@[i as int]@ == "Music"@ && forall|j: int|
                0 <= j < i ==> names@[j]@ != "Music"@,
            None => forall|j: int| 0 <= j < names@.len() ==> names@[j]@ != "Music"@,
        },
{
    let mut i: usize = 0;
    while i < names.len()
        invariant
            i <= names.len(),
            forall|j: int| 0 <= j < i ==> names@[j]@ != "Music"@,
        decreases names.len() - i,
    {
        if str_eq(names[i].as_str(), "Music") {
            return Some(i);
        }
        i = i + 1;
    }
    None
}

/// The zero-based item chosen by the one-based number in `option`, when it
/// reads as one of the `count` items; none otherwise.
pub fn auto_selection(option: Option<&str>, count: usize) -> (r: Option<usize>)
    ensures
        r == match option {
            Some(t) => if parses_as_usize(t@) && 1 <= digits_value(unsigned_digits(t@)) <= count {
                Some((digits_value(unsigned_digits(t@)) - 1) as usize)
            } else {
                None
            },
            None => None,
        },
{
    match option {
        Some(t) => match parse_usize(t) {
            Ok(n) => {
                if n >= 1 && n <= count {
                    Some(n - 1)
                } else {
                    None
                }
            },
            Err(_) => None,
        },
        None => None,
    }
}

} // verus!
