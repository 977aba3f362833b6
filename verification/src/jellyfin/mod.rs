//! The Jellyfin side of the client: data models, request building,
//! response interpretation, session and WebSocket logic.

pub mod json;
pub mod models;
pub mod models_playback;
pub mod reporter;
pub mod error;
pub mod http;
pub mod session;
pub mod api;
pub mod auth;
pub mod websocket;
pub mod ws_incoming_handler;

pub use api::JellyfinClient;
pub use error::JellyfinError;
pub use models::{AuthRequest, AuthResponse, ItemsResponse, MediaItem, User};
pub use session::SessionManager;
pub use websocket::WebSocketHandler;
