//! Translation of the server's remote-control commands into player
//! commands.

use vstd::prelude::*;
use crate::jellyfin::models_playback::{GeneralCommand, PlayCommand, PlayStateCommand};
use crate::player::state::PlayerCommand;
use crate::text::str_eq;

verus! {

/// The player command for a general command. The player handles none of
/// them (volume and mute are not taken from the server).
pub fn handle_general_command(command: &GeneralCommand) -> (r: Option<PlayerCommand>)
    ensures
        r is None,
{
    None
}

/// The player command for a play-state command: play/pause, pause and
/// unpause all toggle; next and previous track skip; anything else is not
/// handled.
pub open spec fn playstate_target(c: Seq<char>) -> Option<PlayStateTarget> {
    if c == "PlayPause"@ || c == "Pause"@ || c == "Unpause"@ {
        Some(PlayStateTarget::Toggle)
    } else if c == "NextTrack"@ {
        Some(PlayStateTarget::Next)
    } else if c == "PreviousTrack"@ {
        Some(PlayStateTarget::Previous)
    } else {
        None
    }
}

/// The player commands that play-state commands map to.
#[derive(Debug, Clone, Copy, PartialEq, Eq, Structural)]
pub enum PlayStateTarget {
    Toggle,
    Next,
    Previous,
}

/// Translates a play-state command.
pub fn handle_playstate_command(command: &PlayStateCommand) -> (r: Option<PlayerCommand>)
    ensures
        match playstate_target(command.command@) {
            Some(PlayStateTarget::Toggle) => r matches Some(PlayerCommand::PlayPauseToggle),
            Some(PlayStateTarget::Next) => r matches Some(PlayerCommand::Next),
            Some(PlayStateTarget::Previous) => r matches Some(PlayerCommand::Previous),
            None => r is None,
        },
{
    let c = command.command.as_str();
    if str_eq(c, "PlayPause") || str_eq(c, "Pause") || str_eq(c, "Unpause") {
        Some(PlayerCommand::PlayPauseToggle)
    } else if str_eq(c, "NextTrack") {
        Some(PlayerCommand::Next)
    } else if str_eq(c, "PreviousTrack") {
        Some(PlayerCommand::Previous)
    } else {
        None
    }
}

/// The start position of a play command: its start index, 0 when absent.
pub open spec fn play_start(command: PlayCommand) -> int {
    match command.start_index {
        Some(i) => i as int,
        None => 0,
    }
}

/// Translates a play command. A command without items, or whose start
/// position is not one of them, is dropped; play-now plays the items from
/// the start position; play-next and play-last add them to the end of the
/// queue; any other kind is not handled.
pub fn handle_play_command(command: PlayCommand) -> (r: Option<PlayerCommand>)
    ensures
        ({
            let n = command.item_ids@.len();
            let s = play_start(command);
            let k = command.play_command@;
            if n == 0 || s < 0 || s >= n {
                r is None
            } else if k == "PlayNow"@ {
                r matches Some(PlayerCommand::PlayNow { item_ids, start_index }) && item_ids
                    == command.item_ids && start_index == s
            } else if k == "PlayNext"@ || k == "PlayLast"@ {
                r matches Some(PlayerCommand::AddToQueue { item_ids }) && item_ids
                    == command.item_ids
            } else {
                r is None
            }
        }),
{
    let n = command.item_ids.len();
    if n == 0 {
        return None;
    }
    let start = match command.start_index {
        Some(i) => i,
        None => 0,
    };
    if start < 0 || start as usize >= n {
        return None;
    }
    let start_index = start as usize;
    let k = command.play_command.as_str();
    if str_eq(k, "PlayNow") {
        Some(PlayerCommand::PlayNow { item_ids: command.item_ids, start_index })
    } else if str_eq(k, "PlayNext") || str_eq(k, "PlayLast") {
        Some(PlayerCommand::AddToQueue { item_ids: command.item_ids })
    } else {
        None
    }
}

} // verus!
