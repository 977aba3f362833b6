use r_jellycli::config::{default_alsa_device, settings_path_under, ConfigError, Settings};

fn settings(server_url: &str, api_key: Option<&str>, username: Option<&str>) -> Settings {
    Settings {
        server_url: server_url.to_string(),
        api_key: api_key.map(|s| s.to_string()),
        username: username.map(|s| s.to_string()),
        alsa_device: "default".to_string(),
        user_id: None,
        device_id: None,
    }
}

#[test]
fn test_default_settings() {
    let settings = Settings::default();
    assert_eq!(settings.server_url, "http://localhost:8096");
    assert!(settings.api_key.is_none());
    assert!(settings.username.is_none());
    assert_eq!(settings.alsa_device, "default");
    assert!(settings.user_id.is_none());
}

#[test]
fn test_settings_validation() {
    let valid_settings = Settings {
        server_url: "https://test-server.com".to_string(),
        api_key: Some("test-api-key".to_string()),
        username: None,
        alsa_device: "default".to_string(),
        device_id: None,
        user_id: None,
    };
    assert!(valid_settings.validate().is_ok());

    let invalid_settings = Settings {
        server_url: "".to_string(),
        api_key: Some("test-api-key".to_string()),
        username: None,
        alsa_device: "default".to_string(),
        device_id: None,
        user_id: None,
    };
    assert!(invalid_settings.validate().is_err());
}

#[test]
fn test_default_path() {
    let path = Settings::default_path();
    assert!(path.contains(".config/jellycli/config.json"));
}

#[test]
fn test_invalid_config_validation() {
    let invalid_settings = Settings {
        server_url: "".to_string(),
        api_key: Some("test-key".to_string()),
        username: None,
        alsa_device: "default".to_string(),
        user_id: None,
        device_id: None,
    };

    let result = invalid_settings.validate();
    assert!(result.is_err());

    if let Err(e) = result {
        assert!(e.message().contains("URL cannot be empty"));
    }

    let no_auth_settings = Settings {
        server_url: "https://example.com".to_string(),
        api_key: None,
        username: None,
        alsa_device: "default".to_string(),
        user_id: None,
        device_id: None,
    };

    assert!(no_auth_settings.validate().is_err());
}

#[test]
fn validation_errors_name_the_problem() {
    assert_eq!(
        settings("", None, None).validate(),
        Err(ConfigError::ValidationError("Server URL cannot be empty".to_string()))
    );
    assert_eq!(
        settings("https://example.com", None, None).validate(),
        Err(ConfigError::ValidationError("Either API key or username must be provided".to_string()))
    );
}

#[test]
fn validation_accepts_a_username_alone() {
    assert_eq!(settings("https://example.com", None, Some("alice")).validate(), Ok(()));
}

#[test]
fn default_settings_lack_credentials() {
    assert!(Settings::default().validate().is_err());
}

#[test]
fn default_device_is_default() {
    assert_eq!(default_alsa_device(), "default");
}

#[test]
fn settings_path_joins_under_home() {
    assert_eq!(
        settings_path_under(Some("/home/alice".to_string())),
        "/home/alice/.config/jellycli/config.json"
    );
    assert_eq!(
        settings_path_under(Some("/home/alice/".to_string())),
        "/home/alice/.config/jellycli/config.json"
    );
    assert_eq!(settings_path_under(None), "./.config/jellycli/config.json");
}

#[test]
fn config_error_messages() {
    assert_eq!(ConfigError::IoError("disk".to_string()).message(), "I/O error: disk");
    assert_eq!(ConfigError::ParseError("bad".to_string()).message(), "Parse error: bad");
    assert_eq!(
        ConfigError::ValidationError("nope".to_string()).message(),
        "Validation error: nope"
    );
}
