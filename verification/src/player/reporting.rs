//! The decisions of the playback reporting task.
//!
//! The task keeps the latest player snapshot, polls the live position every
//! second until it first moves past zero, then switches to a ten-second
//! interval. Progress is sent to the server only on explicit request and
//! only when the position changed since the last report; the periodic timer
//! no longer sends progress. A stop request, or the player dropping its end
//! of the command channel, sends the final stop report and ends the task.

use vstd::prelude::*;
use crate::jellyfin::reporter::{PlaybackProgressInfoBody, PlaybackStopInfoBody};
use crate::player::state::{InternalPlayerState, ReportingCommand};
use crate::text::owned;

verus! {

/// Seconds between polls until the position first moves.
pub const INITIAL_POLL_INTERVAL_SECS: u64 = 1;

/// Seconds between polls once the position has moved.
pub const REPORTING_INTERVAL_SECS: u64 = 10;

/// What the reporting task reacts to.
#[derive(Debug)]
pub enum ReportingEvent {
    /// A command from the player loop.
    Command(ReportingCommand),
    /// The poll timer fired.
    TimerTick,
    /// The player loop dropped the command channel.
    ChannelClosed,
}

/// What the reporting task does in response, in order.
#[derive(Debug)]
pub enum ReportingAction {
    /// Send a progress report to the server.
    SendProgress(PlaybackProgressInfoBody),
    /// Send the stop report to the server.
    SendStopped(PlaybackStopInfoBody),
    /// Replace the poll timer by the ten-second one and consume its first tick.
    UseStandardInterval,
    /// End the task.
    Terminate,
}

/// The id of the snapshot's current item, or the empty string.
pub open spec fn snapshot_item_id(s: InternalPlayerState) -> Seq<char> {
    match s.current_item {
        Some(item) => item.id@,
        None => Seq::empty(),
    }
}

/// The progress body for snapshot `state` and event `event_name`.
pub fn build_progress_info(state: &InternalPlayerState, event_name: &str) -> (r:
    PlaybackProgressInfoBody)
    ensures
        r.item_id@ == snapshot_item_id(*state),
        r.queue_item_id is None,
        r.can_seek,
        r.is_muted == state.is_muted,
        r.is_paused == state.is_paused,
        r.volume_level == state.volume_level,
        r.position_ticks == state.position_ticks,
        r.event_name@ == event_name@,
{
    let item_id = match &state.current_item {
        Some(item) => item.id.clone(),
        None => String::new(),
    };
    PlaybackProgressInfoBody {
        item_id,
        queue_item_id: None,
        can_seek: true,
        is_muted: state.is_muted,
        is_paused: state.is_paused,
        volume_level: state.volume_level,
        position_ticks: state.position_ticks,
        event_name: owned(event_name),
    }
}

/// `a` sends the progress of snapshot `st` at the live position `live`.
pub open spec fn is_progress_report(a: ReportingAction, st: InternalPlayerState, live: i64) -> bool {
    a matches ReportingAction::SendProgress(b) && b.item_id@ == snapshot_item_id(st)
        && b.queue_item_id is None && b.can_seek && b.is_muted == st.is_muted
        && b.is_paused == st.is_paused && b.volume_level == st.volume_level
        && b.position_ticks == live && b.event_name@ == "timeupdate"@
}

/// The reporting task's memory.
pub struct ReportingTask {
    current_state: InternalPlayerState,
    initial_report_sent: bool,
    last_reported_ticks: Option<i64>,
}

/// The snapshot shows an item that is playing and not paused.
pub open spec fn is_active(s: InternalPlayerState) -> bool {
    s.current_item is Some && s.is_playing && !s.is_paused
}

impl ReportingTask {
    /// The latest snapshot.
    pub closed spec fn snapshot(&self) -> InternalPlayerState {
        self.current_state
    }

    /// Whether the position has been seen past zero.
    pub closed spec fn initial_sent(&self) -> bool {
        self.initial_report_sent
    }

    /// The last position reported.
    pub closed spec fn last_ticks(&self) -> Option<i64> {
        self.last_reported_ticks
    }

    /// A task for the initial snapshot, polling on the short interval.
    pub fn new(initial_state: InternalPlayerState) -> (t: ReportingTask)
        ensures
            t.snapshot() == initial_state,
            !t.initial_sent(),
            t.last_ticks() is None,
    {
        ReportingTask {
            current_state: initial_state,
            initial_report_sent: false,
            last_reported_ticks: None,
        }
    }

    /// Reacts to one event, given the live position at that moment. A timer
    /// tick while an item plays unpaused reports its progress at the live
    /// position, and the first tick past position zero switches to the
    /// standard interval; an explicit request reports only a new position;
    /// a stop reports the stopped item and ends the task.
    pub fn step(&mut self, event: ReportingEvent, live_ticks: i64) -> (actions: Vec<ReportingAction>)
        ensures
            old(self).initial_sent() ==> final(self).initial_sent(),
            match event {
                ReportingEvent::Command(ReportingCommand::StateUpdate(s)) => {
                    &&& final(self).snapshot() == s
                    &&& final(self).initial_sent() == old(self).initial_sent()
                    &&& final(self).last_ticks() == old(self).last_ticks()
                    &&& actions@.len() == 0
                },
                ReportingEvent::Command(ReportingCommand::ReportProgressNow) => {
                    let st = old(self).snapshot();
                    &&& final(self).snapshot() == st
                    &&& final(self).initial_sent() == old(self).initial_sent()
                    &&& if is_active(st) && old(self).last_ticks() != Some(live_ticks) {
                        &&& final(self).last_ticks() == Some(live_ticks)
                        &&& actions@.len() == 1
                        &&& is_progress_report(actions@[0], st, live_ticks)
                    } else {
                        final(self).last_ticks() == old(self).last_ticks() && actions@.len() == 0
                    }
                },
                ReportingEvent::Command(ReportingCommand::StopAndReport) | ReportingEvent::ChannelClosed => {
                    let st = old(self).snapshot();
                    &&& final(self).snapshot() == st
                    &&& final(self).last_ticks() == old(self).last_ticks()
                    &&& final(self).initial_sent() == old(self).initial_sent()
                    &&& match st.current_item {
                        Some(item) => {
                            &&& actions@.len() == 2
                            &&& actions@[0] matches ReportingAction::SendStopped(b)
                                && b.item_id == item.id && b.queue_item_id is None
                                && b.position_ticks == live_ticks
                            &&& actions@[1] is Terminate
                        },
                        None => actions@.len() == 1 && actions@[0] is Terminate,
                    }
                },
                ReportingEvent::TimerTick => {
                    let st = old(self).snapshot();
                    &&& final(self).snapshot() == st
                    &&& if !is_active(st) {
                        &&& final(self).initial_sent() == old(self).initial_sent()
                        &&& final(self).last_ticks() == old(self).last_ticks()
                        &&& actions@.len() == 0
                    } else {
                        &&& final(self).last_ticks() == Some(live_ticks)
                        &&& is_progress_report(actions@[0], st, live_ticks)
                        &&& if !old(self).initial_sent() && live_ticks > 0 {
                            final(self).initial_sent() && actions@.len() == 2
                                && actions@[1] is UseStandardInterval
                        } else {
                            final(self).initial_sent() == old(self).initial_sent()
                                && actions@.len() == 1
                        }
                    }
                },
            },
    {
        let mut actions: Vec<ReportingAction> = Vec::new();
        match event {
            ReportingEvent::Command(ReportingCommand::StateUpdate(new_state)) => {
                self.current_state = new_state;
            },
            ReportingEvent::Command(ReportingCommand::ReportProgressNow) => {
                if self.current_state.current_item.is_some() && self.current_state.is_playing
                    && !self.current_state.is_paused {
                    let changed = match self.last_reported_ticks {
                        Some(t) => t != live_ticks,
                        None => true,
                    };
                    if changed {
                        let mut progress_info = build_progress_info(&self.current_state, "timeupdate");
                        progress_info.position_ticks = live_ticks;
                        actions.push(ReportingAction::SendProgress(progress_info));
                        self.last_reported_ticks = Some(live_ticks);
                    }
                }
            },
            ReportingEvent::Command(ReportingCommand::StopAndReport) | ReportingEvent::ChannelClosed => {
                if let Some(item) = &self.current_state.current_item {
                    actions.push(
                        ReportingAction::SendStopped(
                            PlaybackStopInfoBody {
                                item_id: item.id.clone(),
                                queue_item_id: None,
                                position_ticks: live_ticks,
                            },
                        ),
                    );
                }
                actions.push(ReportingAction::Terminate);
            },
            ReportingEvent::TimerTick => {
                if self.current_state.current_item.is_some() && self.current_state.is_playing
                    && !self.current_state.is_paused {
                    let mut progress_info = build_progress_info(&self.current_state, "timeupdate");
                    progress_info.position_ticks = live_ticks;
                    actions.push(ReportingAction::SendProgress(progress_info));
                    self.last_reported_ticks = Some(live_ticks);
                    if !self.initial_report_sent && live_ticks > 0 {
                        self.initial_report_sent = true;
                        actions.push(ReportingAction::UseStandardInterval);
                    }
                }
            },
        }
        actions
    }
}

} // verus!
