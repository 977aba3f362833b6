use r_jellycli::config::Settings;
use r_jellycli::startup::{
    apply_overrides, apply_saved_credentials, auth_plan, auto_selection, choose_alsa_device,
    ensure_device_id, music_library_index, AuthPlan, Overrides, PasswordSource, SavedCredentials,
    password_source,
};

fn base() -> Settings {
    let mut s = Settings::default();
    s.api_key = Some("file-key".to_string());
    s
}

#[test]
fn command_line_beats_environment_beats_file() {
    let o = Overrides {
        arg_server_url: None,
        env_server_url: Some("http://env".to_string()),
        arg_api_key: Some("arg-key".to_string()),
        env_api_key: Some("env-key".to_string()),
        arg_username: None,
        env_username: None,
    };
    let s = apply_overrides(base(), o);
    assert_eq!(s.server_url, "http://env");
    assert_eq!(s.api_key, Some("arg-key".to_string()));
    assert_eq!(s.username, None);
    let none = Overrides {
        arg_server_url: None,
        env_server_url: None,
        arg_api_key: None,
        env_api_key: None,
        arg_username: None,
        env_username: None,
    };
    let kept = apply_overrides(base(), none);
    assert_eq!(kept.server_url, "http://localhost:8096");
    assert_eq!(kept.api_key, Some("file-key".to_string()));
}

#[test]
fn saved_credentials_fill_what_the_command_line_left() {
    let creds = SavedCredentials {
        username: "bob".to_string(),
        password: "pw".to_string(),
        server_url: "http://saved".to_string(),
    };
    let s = apply_saved_credentials(base(), &creds, false, true);
    assert_eq!(s.server_url, "http://saved");
    assert_eq!(s.username, None);
    let t = apply_saved_credentials(base(), &creds, true, false);
    assert_eq!(t.server_url, "http://localhost:8096");
    assert_eq!(t.username, Some("bob".to_string()));
}

#[test]
fn password_precedence() {
    let mut s = Settings::default();
    s.username = Some("bob".to_string());
    assert_eq!(
        password_source(Some("a".to_string()), Some("e".to_string()), None, &s),
        PasswordSource::Given("a".to_string())
    );
    assert_eq!(
        password_source(None, None, Some("saved".to_string()), &s),
        PasswordSource::Given("saved".to_string())
    );
    assert_eq!(password_source(None, None, None, &s), PasswordSource::Prompt);
    s.api_key = Some("k".to_string());
    assert_eq!(password_source(None, None, None, &s), PasswordSource::NotNeeded);
}

#[test]
fn audio_device_choice() {
    assert_eq!(choose_alsa_device("hw:1".to_string(), Some("hw:2".to_string())), "hw:1");
    assert_eq!(choose_alsa_device("default".to_string(), Some("hw:2".to_string())), "hw:2");
    assert_eq!(choose_alsa_device("default".to_string(), None), "default");
}

#[test]
fn device_id_is_generated_once() {
    let (s, changed) = ensure_device_id(Settings::default(), "fresh".to_string());
    assert!(changed);
    assert_eq!(s.device_id, Some("fresh".to_string()));
    let (t, changed_again) = ensure_device_id(s, "other".to_string());
    assert!(!changed_again);
    assert_eq!(t.device_id, Some("fresh".to_string()));
}

#[test]
fn authentication_plans() {
    let mut s = Settings::default();
    s.username = Some("bob".to_string());
    assert_eq!(auth_plan(true, &s), Ok(AuthPlan::Login { username: "bob".to_string() }));
    assert_eq!(
        auth_plan(false, &s),
        Err("Username specified, but no password provided and no API key found in settings.".to_string())
    );
    s.api_key = Some("k".to_string());
    assert_eq!(
        auth_plan(false, &s),
        Err("API key found in settings, but User ID is missing. Please re-authenticate.".to_string())
    );
    s.user_id = Some("u".to_string());
    assert_eq!(
        auth_plan(false, &s),
        Ok(AuthPlan::Stored { api_key: "k".to_string(), user_id: "u".to_string() })
    );
    let empty = Settings::default();
    assert_eq!(
        auth_plan(true, &empty),
        Err("Password provided but no username specified or found.".to_string())
    );
    assert_eq!(
        auth_plan(false, &empty),
        Err("Cannot authenticate: No username, password, or API key provided or found.".to_string())
    );
}

#[test]
fn automatic_choices() {
    let names = vec!["Movies".to_string(), "Music".to_string(), "Music".to_string()];
    assert_eq!(music_library_index(&names), Some(1));
    assert_eq!(music_library_index(&vec!["Books".to_string()]), None);
    assert_eq!(auto_selection(Some("2"), 3), Some(1));
    assert_eq!(auto_selection(Some("4"), 3), None);
    assert_eq!(auto_selection(Some("0"), 3), None);
    assert_eq!(auto_selection(Some("x"), 3), None);
    assert_eq!(auto_selection(None, 3), None);
}
