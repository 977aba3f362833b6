//! Errors of Jellyfin API operations.

use vstd::prelude::*;
use crate::text::concat2;

verus! {

/// A failed network exchange: the transport's message, and whether it
/// failed because the time limit ran out.
#[derive(Debug, Clone, PartialEq)]
pub struct NetworkFailure {
    pub message: String,
    pub is_timeout: bool,
}

/// Error types for Jellyfin API operations.
#[derive(Debug, Clone, PartialEq)]
pub enum JellyfinError {
    Network(NetworkFailure),
    Authentication(String),
    NotFound(String),
    InvalidResponse(String),
    WebSocketError(String),
    Other(String),
}

/// The message of a Jellyfin error: a fixed prefix per kind, then the cause.
pub open spec fn jellyfin_error_message(e: JellyfinError) -> Seq<char> {
    match e {
        JellyfinError::Network(f) => "Network error: "@ + f.message@,
        JellyfinError::Authentication(m) => "Authentication error: "@ + m@,
        JellyfinError::NotFound(m) => "Not found: "@ + m@,
        JellyfinError::InvalidResponse(m) => "Invalid response: "@ + m@,
        JellyfinError::WebSocketError(m) => "WebSocket error: "@ + m@,
        JellyfinError::Other(m) => "Error: "@ + m@,
    }
}

impl JellyfinError {
    /// The human-readable message of this error.
    pub fn message(&self) -> (r: String)
        ensures
            r@ == jellyfin_error_message(*self),
    {
        match self {
            JellyfinError::Network(f) => concat2("Network error: ", f.message.as_str()),
            JellyfinError::Authentication(m) => concat2("Authentication error: ", m.as_str()),
            JellyfinError::NotFound(m) => concat2("Not found: ", m.as_str()),
            JellyfinError::InvalidResponse(m) => concat2("Invalid response: ", m.as_str()),
            JellyfinError::WebSocketError(m) => concat2("WebSocket error: ", m.as_str()),
            JellyfinError::Other(m) => concat2("Error: ", m.as_str()),
        }
    }

    /// Whether this is a network failure caused by a time limit.
    pub fn is_timeout(&self) -> (r: bool)
        ensures
            r == (*self matches JellyfinError::Network(f) && f.is_timeout),
    {
        match self {
            JellyfinError::Network(f) => f.is_timeout,
            _ => false,
        }
    }
}

} // verus!
