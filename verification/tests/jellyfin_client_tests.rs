use r_jellycli::config::Settings;
use r_jellycli::jellyfin::api::{
    authentication_failed, capabilities_failed, expected_status_response, json_parse_error,
    json_response_body, no_content_response, websocket_connect_failed, DETAIL_FIELDS,
};
use r_jellycli::jellyfin::error::NetworkFailure;
use r_jellycli::jellyfin::{AuthResponse, JellyfinClient, JellyfinError, User};

#[test]
fn test_client_creation() {
    let client = JellyfinClient::new("http://localhost:8096");
    assert_eq!(client.get_server_url(), "http://localhost:8096");
    assert!(client.get_api_key().is_none());
    assert!(client.get_user_id().is_none());
}

#[test]
fn test_client_with_api_key() {
    let client = JellyfinClient::new("http://localhost:8096").with_api_key("test_api_key");
    assert_eq!(client.get_server_url(), "http://localhost:8096");
    assert_eq!(client.get_api_key(), Some("test_api_key"));
    assert!(client.get_user_id().is_none());
}

#[test]
fn test_client_with_user_id() {
    let client = JellyfinClient::new("http://localhost:8096")
        .with_api_key("test_api_key")
        .with_user_id("test_user_id");
    assert_eq!(client.get_server_url(), "http://localhost:8096");
    assert_eq!(client.get_api_key(), Some("test_api_key"));
    assert_eq!(client.get_user_id(), Some("test_user_id"));
}

#[test]
fn tests_test_get_stream_url() {
    let client = JellyfinClient::new("http://localhost:8096").with_api_key("test_api_key");
    let url = client.get_stream_url("item123").unwrap();
    assert_eq!(url, "http://localhost:8096/Audio/item123/stream?static=true&api_key=test_api_key");
}

#[test]
fn test_client_init_with_settings() {
    let settings = Settings {
        server_url: "https://test-server.com".to_string(),
        api_key: Some("test-api-key".to_string()),
        username: Some("test-user".to_string()),
        alsa_device: "default".to_string(),
        user_id: Some("test-user-id".to_string()),
        device_id: None,
    };

    let client = JellyfinClient::new(&settings.server_url)
        .with_api_key(&settings.api_key.unwrap())
        .with_user_id(&settings.user_id.unwrap());

    assert_eq!(client.get_server_url(), "https://test-server.com");
    assert_eq!(client.get_api_key().unwrap(), "test-api-key");
    assert_eq!(client.get_user_id().unwrap(), "test-user-id");
}

#[test]
fn test_stream_url_generation() {
    let client = JellyfinClient::new("https://test-server.com").with_api_key("test-api-key");

    let url = client.get_stream_url("item123").unwrap();
    assert_eq!(url, "https://test-server.com/Audio/item123/stream?static=true&api_key=test-api-key");
}

#[test]
fn server_url_loses_trailing_slashes() {
    let client = JellyfinClient::new("https://host:8096///");
    assert_eq!(client.get_server_url(), "https://host:8096");
    let again = JellyfinClient::new(client.get_server_url());
    assert_eq!(again.get_server_url(), "https://host:8096");
}

#[test]
fn play_session_ids_are_uuids() {
    let a = JellyfinClient::new("http://h");
    let b = JellyfinClient::new("http://h");
    assert_eq!(a.play_session_id().len(), 36);
    assert_ne!(a.play_session_id(), b.play_session_id());
}

#[test]
fn stream_url_needs_the_api_key() {
    let client = JellyfinClient::new("http://h").with_user_id("u");
    assert_eq!(
        client.get_stream_url("x"),
        Err(JellyfinError::Authentication("API key not set".to_string()))
    );
}

#[test]
fn requests_need_both_credentials() {
    let none = JellyfinClient::new("http://h");
    assert_eq!(
        none.views_request().unwrap_err(),
        JellyfinError::Authentication("API key not set".to_string())
    );
    let key_only = JellyfinClient::new("http://h").with_api_key("k");
    assert_eq!(
        key_only.views_request().unwrap_err(),
        JellyfinError::Authentication("User ID not set".to_string())
    );
    assert_eq!(
        key_only.report_request("/Sessions/Playing").unwrap_err(),
        JellyfinError::Authentication("User ID not set".to_string())
    );
}

#[test]
fn library_requests() {
    let client = JellyfinClient::new("http://h/").with_api_key("k").with_user_id("u1");
    let views = client.views_request().unwrap();
    assert_eq!(views.url, "http://h/Users/u1/Views");
    assert_eq!(views.token, "k");
    assert!(views.query.is_empty());

    let children = client.children_request("p9").unwrap();
    assert_eq!(children.url, "http://h/Users/u1/Items");
    assert_eq!(children.query, vec![("ParentId".to_string(), "p9".to_string())]);

    let ids = vec!["a".to_string(), "b".to_string(), "c".to_string()];
    let details = client.details_request(&ids).unwrap().unwrap();
    assert_eq!(details.url, "http://h/Users/u1/Items");
    assert_eq!(
        details.query,
        vec![
            ("Ids".to_string(), "a,b,c".to_string()),
            ("Fields".to_string(), DETAIL_FIELDS.to_string()),
        ]
    );
    let report = client.report_request("/Sessions/Playing/Progress").unwrap();
    assert_eq!(report.url, "http://h/Sessions/Playing/Progress");
}

#[test]
fn no_details_for_no_ids() {
    let client = JellyfinClient::new("http://h");
    assert!(client.details_request(&Vec::new()).unwrap().is_none());
}

#[test]
fn authentication_sets_credentials() {
    let mut client = JellyfinClient::new("http://h");
    let auth = AuthResponse {
        user: User { id: "uid".to_string(), name: "alice".to_string(), server_name: None },
        access_token: "tok".to_string(),
        server_id: "srv".to_string(),
    };
    client.apply_authentication(&auth);
    assert_eq!(client.get_api_key(), Some("tok"));
    assert_eq!(client.get_user_id(), Some("uid"));
    let session = client.session_manager("dev1").unwrap();
    assert_eq!(session.get_device_id(), "dev1");
}

#[test]
fn json_responses() {
    assert_eq!(json_response_body(200, Ok("{}".to_string())), Ok("{}".to_string()));
    assert_eq!(
        json_response_body(204, Ok(String::new())),
        Err(JellyfinError::InvalidResponse(
            "Received 204 No Content, but expected JSON body".to_string()
        ))
    );
    assert_eq!(
        json_response_body(200, Ok(String::new())),
        Err(JellyfinError::InvalidResponse("Empty response body received".to_string()))
    );
    let failure = NetworkFailure { message: "reset".to_string(), is_timeout: false };
    assert_eq!(
        json_response_body(200, Err(failure.clone())),
        Err(JellyfinError::Network(failure.clone()))
    );
    assert_eq!(
        json_response_body(401, Ok("no".to_string())),
        Err(JellyfinError::Authentication("Authentication failed (401 Unauthorized): no".to_string()))
    );
    assert_eq!(
        json_response_body(404, Err(failure)),
        Err(JellyfinError::NotFound(
            "Resource not found (404 Not Found): Failed to read error body".to_string()
        ))
    );
    assert_eq!(
        json_response_body(500, Ok("boom".to_string())),
        Err(JellyfinError::InvalidResponse(
            "Request failed with status 500 Internal Server Error: boom".to_string()
        ))
    );
}

#[test]
fn report_responses() {
    assert_eq!(no_content_response(204, Ok(String::new())), Ok(()));
    assert_eq!(
        no_content_response(403, Ok("x".to_string())),
        Err(JellyfinError::Authentication("Authentication failed (403 Forbidden): x".to_string()))
    );
    assert_eq!(
        no_content_response(404, Ok("x".to_string())),
        Err(JellyfinError::NotFound("Endpoint not found (404 Not Found): x".to_string()))
    );
    assert_eq!(
        no_content_response(200, Ok("x".to_string())),
        Err(JellyfinError::InvalidResponse(
            "Unexpected status code 200 OK (expected 204 No Content). Body: x".to_string()
        ))
    );
    assert_eq!(expected_status_response(201, 201, Ok(String::new())), Ok(()));
    assert_eq!(
        expected_status_response(200, 201, Ok("b".to_string())),
        Err(JellyfinError::InvalidResponse(
            "Unexpected status code 200 OK (expected 201 Created). Body: b".to_string()
        ))
    );
}

#[test]
fn error_messages() {
    assert_eq!(
        json_parse_error("eof").message(),
        "Invalid response: Failed to parse JSON response: eof"
    );
    assert_eq!(
        authentication_failed("bad password").message(),
        "Authentication error: Authentication failed: bad password"
    );
    assert_eq!(capabilities_failed("x").message(), "Error: Failed to report capabilities: x");
    assert_eq!(
        websocket_connect_failed("refused").message(),
        "WebSocket error: WebSocket connection failed: refused"
    );
    let timeout = JellyfinError::Network(NetworkFailure { message: "slow".to_string(), is_timeout: true });
    assert!(timeout.is_timeout());
    assert_eq!(timeout.message(), "Network error: slow");
    assert!(!JellyfinError::NotFound("x".to_string()).is_timeout());
    assert_eq!(JellyfinError::NotFound("x".to_string()).message(), "Not found: x");
}
