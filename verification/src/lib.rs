//! Core library of a headless Jellyfin audio client: configuration, the
//! Jellyfin request and report model, the player state machine, and the
//! integer side of the audio pipeline.

pub mod text;
pub mod config;
pub mod ui;
pub mod startup;
pub mod jellyfin;
pub mod player;
pub mod audio;
