use r_jellycli::jellyfin::auth::{
    create_auth_header, login_parse_error, login_request, login_response_body, LOGIN_AUTHORIZATION,
};
use r_jellycli::jellyfin::models::{GeneralCommandType, MediaType};
use r_jellycli::jellyfin::models_playback::{GeneralCommand, PlayCommand, PlayStateCommand};
use r_jellycli::jellyfin::session::{capabilities_accepted, capabilities_payload, SessionManager};
use r_jellycli::jellyfin::websocket::{
    keep_alive_failed, listener_step, route_message, ws_url_from_parts, ListenerAction,
    ListenerEvent, MessageRoute, WebSocketHandler, WebSocketMessage,
};
use r_jellycli::jellyfin::ws_incoming_handler::{
    handle_general_command, handle_play_command, handle_playstate_command,
};
use r_jellycli::player::PlayerCommand;

fn session() -> SessionManager {
    SessionManager::new(
        "http://h".to_string(),
        "tok".to_string(),
        "u".to_string(),
        "dev".to_string(),
        "ps".to_string(),
    )
}

#[test]
fn login_request_and_response() {
    let r = login_request("http://h//", "alice", "pw");
    assert_eq!(r.url, "http://h/Users/authenticatebyname");
    assert_eq!(r.authorization, LOGIN_AUTHORIZATION);
    assert_eq!(r.body.username, "alice");
    assert_eq!(r.body.pw, "pw");
    assert_eq!(login_response_body(200, "{}".to_string()), Ok("{}".to_string()));
    assert_eq!(
        login_response_body(400, "bad".to_string()),
        Err("Login failed: bad".to_string())
    );
    assert_eq!(
        login_response_body(500, "down".to_string()),
        Err("Login failed: down".to_string())
    );
    assert_eq!(login_parse_error("eof"), "Failed to parse auth response: eof");
}

#[test]
fn auth_header_carries_the_token() {
    assert_eq!(
        create_auth_header("abc123"),
        vec![("X-Emby-Token".to_string(), "abc123".to_string())]
    );
}

#[test]
fn capabilities_report() {
    let s = session();
    assert_eq!(
        s.authorization_header(Some("box".to_string())),
        "MediaBrowser Client=\"r-jellycli\", Device=\"box\", DeviceId=\"dev\", Version=\"0.1.0\""
    );
    assert_eq!(
        s.authorization_header(None),
        "MediaBrowser Client=\"r-jellycli\", Device=\"rust-client\", DeviceId=\"dev\", Version=\"0.1.0\""
    );
    let req = s.capabilities_request();
    assert_eq!(req.url, "http://h/Sessions/Capabilities/Full");
    assert_eq!(req.token, "tok");
    assert!(req.authorization.ends_with("DeviceId=\"dev\", Version=\"0.1.0\""));
    let p = capabilities_payload();
    assert_eq!(p.playable_media_types, Some(vec![MediaType::Audio]));
    assert_eq!(
        p.supported_commands,
        Some(vec![
            GeneralCommandType::PlayState,
            GeneralCommandType::Play,
            GeneralCommandType::SetShuffleQueue,
            GeneralCommandType::SetRepeatMode,
            GeneralCommandType::PlayNext,
        ])
    );
    assert!(p.supports_media_control);
    assert!(!p.supports_persistent_identifier);
    assert!(capabilities_accepted(204));
    assert!(capabilities_accepted(200));
    assert!(!capabilities_accepted(400));
    assert!(!capabilities_accepted(503));
}

#[test]
fn websocket_urls() {
    assert_eq!(
        ws_url_from_parts("https", Some("host"), None, "/", "k", "d"),
        Ok("wss://host/socket?api_key=k&deviceId=d".to_string())
    );
    assert_eq!(
        ws_url_from_parts("http", Some("host"), Some(8096), "/jf", "k", "d"),
        Ok("ws://host:8096/jf/socket?api_key=k&deviceId=d".to_string())
    );
    assert_eq!(
        ws_url_from_parts("http", None, None, "/", "k", "d"),
        Err("Server URL missing host".to_string())
    );
    let h = WebSocketHandler::new("https://media.example.com:8920/jellyfin/", "key", "dev");
    assert_eq!(
        h.websocket_url(),
        Ok("wss://media.example.com:8920/jellyfin/socket?api_key=key&deviceId=dev".to_string())
    );
    let plain = WebSocketHandler::new("http://localhost:8096", "key", "dev");
    assert_eq!(
        plain.websocket_url(),
        Ok("ws://localhost:8096/socket?api_key=key&deviceId=dev".to_string())
    );
    assert!(WebSocketHandler::new("not a url", "k", "d").websocket_url().is_err());
    assert_eq!(keep_alive_failed("closed"), "Failed to send initial KeepAlive: closed");
}

fn msg(t: &str, with_data: bool) -> WebSocketMessage {
    WebSocketMessage {
        message_type: t.to_string(),
        data: if with_data { Some(serde_json::Value::Null) } else { None },
    }
}

#[test]
fn message_routes() {
    assert_eq!(route_message(&msg("KeepAlive", false)), MessageRoute::KeepAlive);
    assert_eq!(route_message(&msg("ForceKeepAlive", true)), MessageRoute::KeepAlive);
    assert_eq!(route_message(&msg("GeneralCommand", true)), MessageRoute::GeneralCommand);
    assert_eq!(route_message(&msg("GeneralCommand", false)), MessageRoute::MissingData);
    assert_eq!(route_message(&msg("Playstate", true)), MessageRoute::PlayState);
    assert_eq!(route_message(&msg("PlayState", true)), MessageRoute::PlayState);
    assert_eq!(route_message(&msg("Play", true)), MessageRoute::Play);
    assert_eq!(route_message(&msg("Play", false)), MessageRoute::MissingData);
    assert_eq!(route_message(&msg("Sessions", true)), MessageRoute::Sessions);
    assert_eq!(route_message(&msg("UserDataChanged", true)), MessageRoute::UserDataChanged);
    assert_eq!(route_message(&msg("ServerShuttingDown", false)), MessageRoute::ServerStatus);
    assert_eq!(route_message(&msg("Other", true)), MessageRoute::Unhandled);
}

#[test]
fn listener_steps() {
    assert_eq!(
        listener_step(ListenerEvent::Text("x".to_string())),
        ListenerAction::HandleText("x".to_string())
    );
    assert_eq!(listener_step(ListenerEvent::Ping), ListenerAction::SendPong);
    assert_eq!(listener_step(ListenerEvent::PingDue), ListenerAction::SendPing);
    assert_eq!(listener_step(ListenerEvent::Close), ListenerAction::Stop);
    assert_eq!(listener_step(ListenerEvent::Shutdown), ListenerAction::Stop);
    assert_eq!(listener_step(ListenerEvent::UpdatesClosed), ListenerAction::Stop);
    assert_eq!(listener_step(ListenerEvent::UpdatesLagged), ListenerAction::Continue);
    assert_eq!(listener_step(ListenerEvent::Binary), ListenerAction::Continue);
    assert_eq!(
        listener_step(ListenerEvent::ReadError("reset".to_string())),
        ListenerAction::Fail("WebSocket read error: reset".to_string())
    );
}

fn play(kind: &str, ids: &[&str], start: Option<i32>) -> PlayCommand {
    PlayCommand {
        play_command: kind.to_string(),
        item_ids: ids.iter().map(|s| s.to_string()).collect(),
        start_index: start,
    }
}

#[test]
fn remote_commands() {
    let general = GeneralCommand { name: "SetVolume".to_string(), arguments: None };
    assert!(handle_general_command(&general).is_none());

    let ps = |c: &str| PlayStateCommand { command: c.to_string(), controlling_user_id: None };
    assert!(matches!(handle_playstate_command(&ps("PlayPause")), Some(PlayerCommand::PlayPauseToggle)));
    assert!(matches!(handle_playstate_command(&ps("Pause")), Some(PlayerCommand::PlayPauseToggle)));
    assert!(matches!(handle_playstate_command(&ps("Unpause")), Some(PlayerCommand::PlayPauseToggle)));
    assert!(matches!(handle_playstate_command(&ps("NextTrack")), Some(PlayerCommand::Next)));
    assert!(matches!(handle_playstate_command(&ps("PreviousTrack")), Some(PlayerCommand::Previous)));
    assert!(handle_playstate_command(&ps("Seek")).is_none());
    assert!(handle_playstate_command(&ps("Stop")).is_none());

    match handle_play_command(play("PlayNow", &["a", "b"], Some(1))) {
        Some(PlayerCommand::PlayNow { item_ids, start_index }) => {
            assert_eq!(item_ids, vec!["a".to_string(), "b".to_string()]);
            assert_eq!(start_index, 1);
        }
        other => panic!("unexpected {:?}", other),
    }
    match handle_play_command(play("PlayNow", &["a"], None)) {
        Some(PlayerCommand::PlayNow { start_index, .. }) => assert_eq!(start_index, 0),
        other => panic!("unexpected {:?}", other),
    }
    assert!(matches!(
        handle_play_command(play("PlayNext", &["a"], None)),
        Some(PlayerCommand::AddToQueue { .. })
    ));
    assert!(matches!(
        handle_play_command(play("PlayLast", &["a"], None)),
        Some(PlayerCommand::AddToQueue { .. })
    ));
    assert!(handle_play_command(play("PlayNow", &[], None)).is_none());
    assert!(handle_play_command(play("PlayNow", &["a"], Some(1))).is_none());
    assert!(handle_play_command(play("PlayNow", &["a"], Some(-1))).is_none());
    assert!(handle_play_command(play("PlayInstantMix", &["a"], None)).is_none());
}
