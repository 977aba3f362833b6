//! The player: command and state types, the queue and playback state
//! machine, item ordering, and the reporting task's decisions.

pub mod state;
pub mod machine;
pub mod item_fetcher;
pub mod reporting;

pub use machine::Player;
pub use state::{InternalPlayerState, InternalPlayerStateUpdate, PlayerCommand};
