//! The player's queue and playback state machine.
//!
//! Every command handler is a step from the current state to the next one,
//! together with the effects that the surrounding task performs in order:
//! stopping the audio task, resetting progress, reporting to the server,
//! broadcasting updates and starting the item at the current queue index.

use vstd::prelude::*;
use crate::jellyfin::models::MediaItem;
use crate::jellyfin::reporter::{PlaybackProgressInfoBody, PlaybackStartInfoBody};
use crate::player::state::{InternalPlayerState, InternalPlayerStateUpdate};
use crate::text::{concat2, owned};

verus! {

/// Work that a command hands to the player task, in the order given.
#[derive(Debug)]
pub enum PlayerEffect {
    /// Stop the running audio task, if there is one, and wait for it.
    StopAudioTask,
    /// Reset the shared playback progress to zero.
    ResetProgress,
    /// Report to the server that playback of `item_id` stopped.
    ReportStopped { item_id: String, played_to_completion: bool },
    /// Report the current state's progress to the server.
    ReportProgress,
    /// Broadcast a state update to listeners.
    Broadcast(InternalPlayerStateUpdate),
    /// Start playback of the item at the current queue index.
    PlayCurrentItem,
}

/// The player's state.
pub struct Player {
    queue: Vec<MediaItem>,
    current_queue_index: usize,
    current_item_id: Option<String>,
    position_ticks: i64,
    is_playing: bool,
    is_paused: bool,
    is_muted: bool,
    volume_level: u32,
    is_handling_track_finish: bool,
}

/// The mathematical model of a [`Player`].
pub struct PlayerView {
    pub queue: Seq<MediaItem>,
    pub index: int,
    pub current_item_id: Option<String>,
    pub position_ticks: i64,
    pub is_playing: bool,
    pub is_paused: bool,
    pub is_muted: bool,
    pub volume_level: u32,
    pub handling_finish: bool,
}

/// The ids of the items of a queue, in order.
pub open spec fn ids_of(q: Seq<MediaItem>) -> Seq<String> {
    q.map_values(|m: MediaItem| m.id)
}

/// The first item of `q` whose id is `id`.
pub open spec fn find_item(q: Seq<MediaItem>, id: String) -> Option<MediaItem>
    decreases q.len(),
{
    if q.len() == 0 {
        None
    } else if q[0].id@ == id@ {
        Some(q[0])
    } else {
        find_item(q.drop_first(), id)
    }
}

/// `q` without its first `n` items (empty when `n` reaches its length).
pub open spec fn skip_items(q: Seq<MediaItem>, n: int) -> Seq<MediaItem> {
    if n < q.len() {
        q.subrange(n, q.len() as int)
    } else {
        Seq::empty()
    }
}

impl PlayerView {
    /// The state every reachable player is in: a valid index (zero for an
    /// empty queue), pausing only while playing, playing exactly when an
    /// item is current, the current item in the queue, volume at most 100.
    pub open spec fn wf(self) -> bool {
        &&& (0 <= self.index < self.queue.len() || (self.queue.len() == 0 && self.index == 0))
        &&& (self.is_paused ==> self.is_playing)
        &&& (self.is_playing <==> self.current_item_id is Some)
        &&& (self.current_item_id matches Some(id) ==> exists|i: int|
            0 <= i < self.queue.len() && #[trigger] self.queue[i].id == id)
        &&& !self.handling_finish
        &&& self.volume_level <= 100
    }

    /// Playback flags after playback stops: not playing, not paused, no current item.
    pub open spec fn stopped(self) -> PlayerView {
        PlayerView { is_playing: false, is_paused: false, current_item_id: None, ..self }
    }

    /// The state after the queue is cleared.
    pub open spec fn cleared(self) -> PlayerView {
        PlayerView { queue: Seq::empty(), index: 0, ..self.stopped() }
    }

    /// The state after a step to the next item.
    pub open spec fn after_next(self) -> PlayerView {
        if self.queue.len() == 0 || self.index + 1 >= self.queue.len() {
            self
        } else {
            PlayerView { index: self.index + 1, ..self }
        }
    }

    /// The state after a step to the previous item.
    pub open spec fn after_previous(self) -> PlayerView {
        if self.queue.len() == 0 || self.index == 0 {
            self
        } else {
            PlayerView { index: self.index - 1, ..self }
        }
    }

    /// The state after a pause request.
    pub open spec fn after_pause(self) -> PlayerView {
        if !self.is_playing || self.is_paused {
            self
        } else {
            PlayerView { is_paused: true, ..self }
        }
    }

    /// The state after a resume request.
    pub open spec fn after_resume(self) -> PlayerView {
        if !self.is_playing || !self.is_paused {
            self
        } else {
            PlayerView { is_paused: false, ..self }
        }
    }

    /// The state after a play/pause toggle.
    pub open spec fn after_toggle(self) -> PlayerView {
        if !self.is_playing {
            self
        } else if self.is_paused {
            self.after_resume()
        } else {
            self.after_pause()
        }
    }

    /// The state after items are added to the queue.
    pub open spec fn after_add(self, fetched: Seq<MediaItem>) -> PlayerView {
        if fetched.len() == 0 {
            self
        } else if self.queue.len() == 0 && !self.is_playing {
            PlayerView { queue: self.queue + fetched, index: 0, ..self }
        } else {
            PlayerView { queue: self.queue + fetched, ..self }
        }
    }

    /// The state after "play now" with the fetched items from `start`.
    pub open spec fn after_play_now(self, fetched: Seq<MediaItem>, start: int) -> PlayerView {
        PlayerView { queue: skip_items(fetched, start), ..self.cleared() }
    }

    /// The state after the mute flag is flipped.
    pub open spec fn after_mute_toggle(self) -> PlayerView {
        PlayerView { is_muted: !self.is_muted, ..self }
    }

    /// The state after the current track finished naturally.
    pub open spec fn after_track_finished(self) -> PlayerView {
        if self.index + 1 < self.queue.len() {
            PlayerView { index: self.index + 1, ..self.stopped() }
        } else {
            self.stopped()
        }
    }

    /// The state after playback of the item at the current index began.
    pub open spec fn after_started(self) -> PlayerView {
        PlayerView {
            is_playing: true,
            is_paused: false,
            current_item_id: Some(self.queue[self.index].id),
            ..self
        }
    }
}

/// `e` broadcasts a queue change to `ids` at index `idx`.
pub open spec fn is_queue_changed(e: PlayerEffect, ids: Seq<String>, idx: int) -> bool {
    e matches PlayerEffect::Broadcast(
        InternalPlayerStateUpdate::QueueChanged { queue_ids, current_index },
    ) && queue_ids@ == ids && current_index == idx
}

/// `e` reports that `id` stopped, played to completion or not.
pub open spec fn is_report_stopped(e: PlayerEffect, id: String, completed: bool) -> bool {
    e matches PlayerEffect::ReportStopped { item_id, played_to_completion } && item_id == id
        && played_to_completion == completed
}

/// `e` broadcasts that playback stopped.
pub open spec fn is_stopped_broadcast(e: PlayerEffect) -> bool {
    e matches PlayerEffect::Broadcast(InternalPlayerStateUpdate::Stopped)
}

/// `e` broadcasts an error with message `msg`.
pub open spec fn is_error_broadcast(e: PlayerEffect, msg: Seq<char>) -> bool {
    e matches PlayerEffect::Broadcast(InternalPlayerStateUpdate::Error(m)) && m@ == msg
}

/// The effects of stopping playback and clearing the queue of `v`.
pub open spec fn clear_effects_ok(v: PlayerView, effects: Seq<PlayerEffect>) -> bool {
    match v.current_item_id {
        Some(id) => {
            &&& effects.len() == 5
            &&& effects[0] is StopAudioTask
            &&& effects[1] is ResetProgress
            &&& is_report_stopped(effects[2], id, false)
            &&& is_stopped_broadcast(effects[3])
            &&& is_queue_changed(effects[4], Seq::empty(), 0)
        },
        None => {
            &&& effects.len() == 4
            &&& effects[0] is StopAudioTask
            &&& effects[1] is ResetProgress
            &&& is_stopped_broadcast(effects[2])
            &&& is_queue_changed(effects[3], Seq::empty(), 0)
        },
    }
}

/// Copies of the ids of a queue.
pub fn queue_ids(q: &Vec<MediaItem>) -> (r: Vec<String>)
    ensures
        r@ == ids_of(q@),
{
    let mut r: Vec<String> = Vec::new();
    let mut i: usize = 0;
    while i < q.len()
        invariant
            i <= q.len(),
            r@ == ids_of(q@.subrange(0, i as int)),
        decreases q.len() - i,
    {
        r.push(q[i].id.clone());
        proof {
            assert(q@.subrange(0, i + 1) =~= q@.subrange(0, i as int).push(q@[i as int]));
            assert(ids_of(q@.subrange(0, i + 1)) =~= ids_of(q@.subrange(0, i as int)).push(
                q@[i as int].id,
            ));
        }
        i = i + 1;
    }
    proof {
        assert(q@.subrange(0, q@.len() as int) =~= q@);
    }
    r
}

/// Finds the first item of `q` whose id is `id` and copies it.
pub fn find_item_by_id(q: &Vec<MediaItem>, id: &String) -> (r: Option<MediaItem>)
    ensures
        r == find_item(q@, *id),
{
    let mut i: usize = 0;
    proof {
        assert(q@.subrange(0, q@.len() as int) =~= q@);
    }
    while i < q.len()
        invariant
            i <= q.len(),
            find_item(q@, *id) == find_item(q@.subrange(i as int, q@.len() as int), *id),
        decreases q.len() - i,
    {
        proof {
            let rest = q@.subrange(i as int, q@.len() as int);
            assert(rest.drop_first() =~= q@.subrange(i + 1, q@.len() as int));
            assert(rest[0] == q@[i as int]);
        }
        if q[i].id == *id {
            return Some(q[i].copy());
        }
        i = i + 1;
    }
    None
}

impl Player {
    /// The model of this player.
    pub closed spec fn view(&self) -> PlayerView {
        PlayerView {
            queue: self.queue@,
            index: self.current_queue_index as int,
            current_item_id: self.current_item_id,
            position_ticks: self.position_ticks,
            is_playing: self.is_playing,
            is_paused: self.is_paused,
            is_muted: self.is_muted,
            volume_level: self.volume_level,
            handling_finish: self.is_handling_track_finish,
        }
    }

    /// An idle player: empty queue, nothing playing, unmuted, volume 100.
    pub fn new() -> (p: Player)
        ensures
            p.view().wf(),
            p.view().queue.len() == 0,
            p.view().index == 0,
            p.view().current_item_id is None,
            p.view().position_ticks == 0,
            !p.view().is_playing,
            !p.view().is_paused,
            !p.view().is_muted,
            p.view().volume_level == 100,
    {
        Player {
            queue: Vec::new(),
            current_queue_index: 0,
            current_item_id: None,
            position_ticks: 0,
            is_playing: false,
            is_paused: false,
            is_muted: false,
            volume_level: 100,
            is_handling_track_finish: false,
        }
    }

    /// The queue.
    pub fn queue(&self) -> (r: &Vec<MediaItem>)
        ensures
            r@ == self.view().queue,
    {
        &self.queue
    }

    /// The index of the current item in the queue.
    pub fn current_queue_index(&self) -> (r: usize)
        ensures
            r == self.view().index,
    {
        self.current_queue_index
    }

    /// The id of the item being played, if any.
    pub fn current_item_id(&self) -> (r: &Option<String>)
        ensures
            *r == self.view().current_item_id,
    {
        &self.current_item_id
    }

    /// The last position set by `update_position` or `seek`.
    pub fn get_position(&self) -> (r: i64)
        ensures
            r == self.view().position_ticks,
    {
        self.position_ticks
    }

    /// The volume level, 0 to 100.
    pub fn get_volume(&self) -> (r: u32)
        ensures
            r == self.view().volume_level,
    {
        self.volume_level
    }

    /// Whether the player is muted.
    pub fn is_muted(&self) -> (r: bool)
        ensures
            r == self.view().is_muted,
    {
        self.is_muted
    }

    /// Whether playback is paused.
    pub fn is_paused(&self) -> (r: bool)
        ensures
            r == self.view().is_paused,
    {
        self.is_paused
    }

    /// Whether an item is being played.
    pub fn is_playing(&self) -> (r: bool)
        ensures
            r == self.view().is_playing,
    {
        self.is_playing
    }

    /// Records the playback position.
    pub fn update_position(&mut self, position_ticks: i64)
        requires
            old(self).view().wf(),
        ensures
            final(self).view() == (PlayerView { position_ticks, ..old(self).view() }),
            final(self).view().wf(),
    {
        self.position_ticks = position_ticks;
    }

    /// Moves the position and, when an item is current, returns the
    /// progress update that announces it.
    pub fn seek(&mut self, position_ticks: i64) -> (r: Option<InternalPlayerStateUpdate>)
        requires
            old(self).view().wf(),
        ensures
            final(self).view() == (PlayerView { position_ticks, ..old(self).view() }),
            final(self).view().wf(),
            match old(self).view().current_item_id {
                Some(id) => r matches Some(InternalPlayerStateUpdate::Progress { item_id, position_ticks: p })
                    && item_id == id && p == position_ticks,
                None => r is None,
            },
    {
        self.position_ticks = position_ticks;
        match &self.current_item_id {
            Some(id) => Some(InternalPlayerStateUpdate::Progress { item_id: id.clone(), position_ticks }),
            None => None,
        }
    }

    /// Sets the volume, clamped to 100.
    pub fn set_volume(&mut self, volume: u8)
        requires
            old(self).view().wf(),
        ensures
            final(self).view() == (PlayerView {
                volume_level: if volume <= 100 { volume as u32 } else { 100 },
                ..old(self).view()
            }),
            final(self).view().wf(),
    {
        let clamped: u8 = if volume <= 100 { volume } else { 100 };
        self.volume_level = clamped as u32;
    }

    /// Flips the mute flag.
    pub fn toggle_mute(&mut self)
        requires
            old(self).view().wf(),
        ensures
            final(self).view() == old(self).view().after_mute_toggle(),
            final(self).view().is_muted == !old(self).view().is_muted,
            final(self).view().queue == old(self).view().queue,
            final(self).view().wf(),
    {
        self.is_muted = !self.is_muted;
    }

    /// Appends items to the queue without starting playback.
    pub fn add_items(&mut self, items: Vec<MediaItem>)
        requires
            old(self).view().wf(),
        ensures
            final(self).view() == (PlayerView { queue: old(self).view().queue + items@, ..old(self).view() }),
            final(self).view().wf(),
    {
        let mut items = items;
        let ghost v0 = self.view();
        self.queue.append(&mut items);
        proof {
            if let Some(id) = v0.current_item_id {
                let i = choose|i: int| 0 <= i < v0.queue.len() && #[trigger] v0.queue[i].id == id;
                assert(self.queue@[i] == v0.queue[i]);
            }
        }
    }

    fn stop_flags(&mut self)
        requires
            old(self).view().wf(),
        ensures
            final(self).view() == old(self).view().stopped(),
            final(self).view().wf(),
    {
        self.is_playing = false;
        self.is_paused = false;
        self.current_item_id = None;
    }

    /// Stops playback and empties the queue.
    ///
    /// Effects: stop the audio task, reset progress, report the stopped
    /// item (not played to completion) if there was one, broadcast
    /// `Stopped`, broadcast the empty queue at index 0.
    pub fn clear_queue(&mut self) -> (effects: Vec<PlayerEffect>)
        requires
            old(self).view().wf(),
        ensures
            final(self).view() == old(self).view().cleared(),
            final(self).view().queue.len() == 0,
            final(self).view().index == 0,
            !final(self).view().is_playing,
            !final(self).view().is_paused,
            final(self).view().current_item_id is None,
            final(self).view().wf(),
            clear_effects_ok(old(self).view(), effects@),
    {
        let mut effects: Vec<PlayerEffect> = Vec::new();
        let stopped_item_id = self.current_item_id.take();
        effects.push(PlayerEffect::StopAudioTask);
        effects.push(PlayerEffect::ResetProgress);
        self.is_playing = false;
        self.is_paused = false;
        if let Some(id) = stopped_item_id {
            effects.push(PlayerEffect::ReportStopped { item_id: id, played_to_completion: false });
        }
        effects.push(PlayerEffect::Broadcast(InternalPlayerStateUpdate::Stopped));
        self.queue.clear();
        self.current_queue_index = 0;
        effects.push(
            PlayerEffect::Broadcast(
                InternalPlayerStateUpdate::QueueChanged { queue_ids: Vec::new(), current_index: 0 },
            ),
        );
        effects
    }

    /// Replaces the queue with the fetched items from `start_index` on and
    /// starts the first of them; with nothing left, only clears the queue.
    ///
    /// Effects: those of [`Player::clear_queue`]; then, when items remain,
    /// a broadcast of the new queue at index 0 and a start of the item at
    /// index 0.
    pub fn play_now(&mut self, fetched: Vec<MediaItem>, start_index: usize) -> (effects: Vec<
        PlayerEffect,
    >)
        requires
            old(self).view().wf(),
        ensures
            final(self).view() == old(self).view().after_play_now(fetched@, start_index as int),
            final(self).view().wf(),
            start_index < fetched@.len() ==> {
                &&& final(self).view().queue == fetched@.subrange(
                    start_index as int,
                    fetched@.len() as int,
                )
                &&& final(self).view().queue.len() > 0
                &&& final(self).view().index == 0
                &&& effects@.len() >= 2
                &&& is_queue_changed(
                    effects@[effects@.len() - 2],
                    ids_of(fetched@.subrange(start_index as int, fetched@.len() as int)),
                    0,
                )
                &&& effects@[effects@.len() - 1] is PlayCurrentItem
            },
            start_index >= fetched@.len() ==> {
                &&& final(self).view().queue.len() == 0
                &&& clear_effects_ok(old(self).view(), effects@)
            },
            ({
                let rest = skip_items(fetched@, start_index as int);
                let n = effects@.len();
                if rest.len() == 0 {
                    clear_effects_ok(old(self).view(), effects@)
                } else {
                    &&& n >= 2
                    &&& clear_effects_ok(old(self).view(), effects@.subrange(0, n - 2))
                    &&& is_queue_changed(effects@[n - 2], ids_of(rest), 0)
                    &&& effects@[n - 1] is PlayCurrentItem
                }
            }),
    {
        let mut fetched = fetched;
        let items_to_play = if start_index < fetched.len() {
            fetched.split_off(start_index)
        } else {
            Vec::new()
        };
        let mut effects = self.clear_queue();
        if items_to_play.len() == 0 {
            return effects;
        }
        self.queue = items_to_play;
        let ids = queue_ids(&self.queue);
        effects.push(
            PlayerEffect::Broadcast(
                InternalPlayerStateUpdate::QueueChanged { queue_ids: ids, current_index: 0 },
            ),
        );
        self.current_queue_index = 0;
        effects.push(PlayerEffect::PlayCurrentItem);
        proof {
            let n = effects@.len();
            assert(effects@.subrange(0, n - 2) =~= effects@.subrange(0, n as int - 2));
        }
        effects
    }

    /// Appends fetched items to the queue; starts playback at index 0 when
    /// the queue was empty and nothing was playing.
    ///
    /// Effects (none when nothing was fetched): a broadcast of the new
    /// queue at the current index, then possibly a start of the item at 0.
    pub fn add_to_queue(&mut self, fetched: Vec<MediaItem>) -> (effects: Vec<PlayerEffect>)
        requires
            old(self).view().wf(),
        ensures
            final(self).view() == old(self).view().after_add(fetched@),
            final(self).view().queue == old(self).view().queue + fetched@,
            final(self).view().is_playing == old(self).view().is_playing,
            old(self).view().queue.len() > 0 ==> final(self).view().index == old(self).view().index,
            final(self).view().wf(),
            fetched@.len() == 0 ==> effects@.len() == 0,
            fetched@.len() > 0 ==> {
                let v = old(self).view();
                let starts = v.queue.len() == 0 && !v.is_playing;
                &&& effects@.len() == if starts { 2nat } else { 1nat }
                &&& is_queue_changed(effects@[0], ids_of(v.queue + fetched@), v.index)
                &&& starts ==> effects@[1] is PlayCurrentItem
            },
    {
        let mut effects: Vec<PlayerEffect> = Vec::new();
        if fetched.len() == 0 {
            return effects;
        }
        let was_empty = self.queue.len() == 0;
        self.add_items(fetched);
        let ids = queue_ids(&self.queue);
        effects.push(
            PlayerEffect::Broadcast(
                InternalPlayerStateUpdate::QueueChanged {
                    queue_ids: ids,
                    current_index: self.current_queue_index,
                },
            ),
        );
        if was_empty && self.queue.len() > 0 && !self.is_playing {
            self.current_queue_index = 0;
            effects.push(PlayerEffect::PlayCurrentItem);
        }
        effects
    }

    /// Pauses playback.
    ///
    /// Effects (none unless playing and not paused): a `Paused` broadcast of
    /// the current item at `position_ticks`, then a progress report.
    pub fn pause(&mut self, position_ticks: i64) -> (effects: Vec<PlayerEffect>)
        requires
            old(self).view().wf(),
        ensures
            final(self).view() == old(self).view().after_pause(),
            old(self).view().is_playing ==> final(self).view().is_paused,
            !old(self).view().is_playing ==> final(self).view() == old(self).view(),
            final(self).view().queue == old(self).view().queue,
            final(self).view().index == old(self).view().index,
            final(self).view().is_playing == old(self).view().is_playing,
            final(self).view().wf(),
            ({
                let v = old(self).view();
                if !v.is_playing || v.is_paused {
                    effects@.len() == 0
                } else {
                    &&& effects@.len() == 2
                    &&& effects@[0] matches PlayerEffect::Broadcast(
                        InternalPlayerStateUpdate::Paused { item, position_ticks: p, queue_ids, queue_index },
                    ) && item == v.queue[v.index] && p == position_ticks && queue_ids@ == ids_of(
                        v.queue,
                    ) && queue_index == v.index
                    &&& effects@[1] is ReportProgress
                }
            }),
    {
        let mut effects: Vec<PlayerEffect> = Vec::new();
        if !self.is_playing || self.is_paused {
            return effects;
        }
        proof {
            let id = self.current_item_id->0;
            let i = choose|i: int| 0 <= i < self.queue@.len() && #[trigger] self.queue@[i].id == id;
        }
        self.is_paused = true;
        let item = self.queue[self.current_queue_index].copy();
        let ids = queue_ids(&self.queue);
        effects.push(
            PlayerEffect::Broadcast(
                InternalPlayerStateUpdate::Paused {
                    item,
                    position_ticks,
                    queue_ids: ids,
                    queue_index: self.current_queue_index,
                },
            ),
        );
        effects.push(PlayerEffect::ReportProgress);
        effects
    }

    /// Resumes paused playback.
    ///
    /// Effects (none unless playing and paused): a `Playing` broadcast of
    /// the current item at `position_ticks`, then a progress report.
    pub fn resume(&mut self, position_ticks: i64) -> (effects: Vec<PlayerEffect>)
        requires
            old(self).view().wf(),
        ensures
            final(self).view() == old(self).view().after_resume(),
            !final(self).view().is_paused,
            final(self).view().queue == old(self).view().queue,
            final(self).view().index == old(self).view().index,
            final(self).view().is_playing == old(self).view().is_playing,
            final(self).view().wf(),
            ({
                let v = old(self).view();
                if !v.is_playing || !v.is_paused {
                    effects@.len() == 0
                } else {
                    &&& effects@.len() == 2
                    &&& effects@[0] matches PlayerEffect::Broadcast(
                        InternalPlayerStateUpdate::Playing { item, position_ticks: p, queue_ids, queue_index },
                    ) && item == v.queue[v.index] && p == position_ticks && queue_ids@ == ids_of(
                        v.queue,
                    ) && queue_index == v.index
                    &&& effects@[1] is ReportProgress
                }
            }),
    {
        let mut effects: Vec<PlayerEffect> = Vec::new();
        if !self.is_playing || !self.is_paused {
            return effects;
        }
        self.is_paused = false;
        let item = self.queue[self.current_queue_index].copy();
        let ids = queue_ids(&self.queue);
        effects.push(
            PlayerEffect::Broadcast(
                InternalPlayerStateUpdate::Playing {
                    item,
                    position_ticks,
                    queue_ids: ids,
                    queue_index: self.current_queue_index,
                },
            ),
        );
        effects.push(PlayerEffect::ReportProgress);
        effects
    }

    /// Toggles between playing and paused; when nothing is playing, starts
    /// the item at the current index if the queue is not empty.
    pub fn play_pause_toggle(&mut self, position_ticks: i64) -> (effects: Vec<PlayerEffect>)
        requires
            old(self).view().wf(),
        ensures
            final(self).view() == old(self).view().after_toggle(),
            old(self).view().is_playing ==> final(self).view().is_paused
                == !old(self).view().is_paused,
            !old(self).view().is_playing ==> final(self).view() == old(self).view(),
            final(self).view().queue == old(self).view().queue,
            final(self).view().index == old(self).view().index,
            final(self).view().wf(),
            ({
                let v = old(self).view();
                !v.is_playing ==> if v.queue.len() > 0 {
                    effects@.len() == 1 && effects@[0] is PlayCurrentItem
                } else {
                    effects@.len() == 0
                }
            }),
            old(self).view().is_playing ==> effects@.len() == 2,
    {
        if !self.is_playing {
            let mut effects: Vec<PlayerEffect> = Vec::new();
            if self.queue.len() > 0 {
                effects.push(PlayerEffect::PlayCurrentItem);
            }
            effects
        } else if self.is_paused {
            self.resume(position_ticks)
        } else {
            self.pause(position_ticks)
        }
    }

    /// Moves to the next item and starts it, unless already at the end.
    pub fn next(&mut self) -> (effects: Vec<PlayerEffect>)
        requires
            old(self).view().wf(),
        ensures
            final(self).view() == old(self).view().after_next(),
            old(self).view().index + 1 < old(self).view().queue.len() ==> final(self).view().index
                == old(self).view().index + 1,
            old(self).view().index + 1 >= old(self).view().queue.len() ==> final(self).view()
                == old(self).view(),
            final(self).view().queue == old(self).view().queue,
            final(self).view().wf(),
            final(self).view().index != old(self).view().index ==> (effects@.len() == 1
                && effects@[0] is PlayCurrentItem),
            final(self).view().index == old(self).view().index ==> effects@.len() == 0,
    {
        let mut effects: Vec<PlayerEffect> = Vec::new();
        if self.queue.len() == 0 || self.current_queue_index + 1 >= self.queue.len() {
            return effects;
        }
        self.current_queue_index = self.current_queue_index + 1;
        effects.push(PlayerEffect::PlayCurrentItem);
        effects
    }

    /// Moves to the previous item and starts it, unless already at the start.
    pub fn previous(&mut self) -> (effects: Vec<PlayerEffect>)
        requires
            old(self).view().wf(),
        ensures
            final(self).view() == old(self).view().after_previous(),
            old(self).view().index > 0 ==> final(self).view().index == old(self).view().index - 1,
            old(self).view().index == 0 ==> final(self).view() == old(self).view(),
            final(self).view().queue == old(self).view().queue,
            final(self).view().wf(),
            final(self).view().index != old(self).view().index ==> (effects@.len() == 1
                && effects@[0] is PlayCurrentItem),
            final(self).view().index == old(self).view().index ==> effects@.len() == 0,
    {
        let mut effects: Vec<PlayerEffect> = Vec::new();
        if self.queue.len() == 0 || self.current_queue_index == 0 {
            return effects;
        }
        self.current_queue_index = self.current_queue_index - 1;
        effects.push(PlayerEffect::PlayCurrentItem);
        effects
    }

    /// Starts the first item of a non-empty queue.
    pub fn play_from_start(&mut self) -> (effects: Vec<PlayerEffect>)
        requires
            old(self).view().wf(),
        ensures
            old(self).view().queue.len() == 0 ==> final(self).view() == old(self).view()
                && effects@.len() == 0,
            old(self).view().queue.len() > 0 ==> final(self).view() == (PlayerView {
                index: 0,
                ..old(self).view()
            }) && effects@.len() == 1 && effects@[0] is PlayCurrentItem,
            final(self).view().wf(),
    {
        let mut effects: Vec<PlayerEffect> = Vec::new();
        if self.queue.len() == 0 {
            return effects;
        }
        self.current_queue_index = 0;
        effects.push(PlayerEffect::PlayCurrentItem);
        effects
    }

    /// Handles the natural end of the current track: reports it as played
    /// to completion, then starts the next item or, at the end of the
    /// queue, broadcasts `Stopped`.
    pub fn track_finished(&mut self) -> (effects: Vec<PlayerEffect>)
        requires
            old(self).view().wf(),
            old(self).view().queue.len() > 0,
        ensures
            final(self).view() == old(self).view().after_track_finished(),
            old(self).view().index + 1 < old(self).view().queue.len() ==> final(self).view().index
                == old(self).view().index + 1,
            old(self).view().index + 1 >= old(self).view().queue.len() ==> final(self).view().index
                == old(self).view().index,
            !final(self).view().is_playing,
            final(self).view().queue == old(self).view().queue,
            final(self).view().wf(),
            ({
                let v = old(self).view();
                let k: int = if v.current_item_id is Some { 1 } else { 0 };
                &&& effects@.len() == k + 1
                &&& (v.current_item_id matches Some(id) ==> is_report_stopped(effects@[0], id, true))
                &&& if v.index + 1 < v.queue.len() {
                    effects@[k] is PlayCurrentItem
                } else {
                    is_stopped_broadcast(effects@[k])
                }
            }),
    {
        let mut effects: Vec<PlayerEffect> = Vec::new();
        if self.is_handling_track_finish {
            return effects;
        }
        assert(self.current_queue_index < self.queue.len());
        self.is_handling_track_finish = true;
        if let Some(id) = &self.current_item_id {
            effects.push(PlayerEffect::ReportStopped { item_id: id.clone(), played_to_completion: true });
        }
        self.is_playing = false;
        self.is_paused = false;
        self.current_item_id = None;
        if self.current_queue_index + 1 < self.queue.len() {
            self.current_queue_index = self.current_queue_index + 1;
            effects.push(PlayerEffect::PlayCurrentItem);
        } else {
            effects.push(PlayerEffect::Broadcast(InternalPlayerStateUpdate::Stopped));
        }
        self.is_handling_track_finish = false;
        effects
    }

    /// Stops playback of the current item, if one is playing: reports it
    /// as not played to completion, then stops the audio task; the player
    /// ends stopped at position zero. Without playback nothing happens.
    pub fn stop(&mut self) -> (effects: Vec<PlayerEffect>)
        requires
            old(self).view().wf(),
        ensures
            final(self).view().wf(),
            ({
                let v = old(self).view();
                if v.is_playing {
                    &&& final(self).view() == (PlayerView { position_ticks: 0, ..v.stopped() })
                    &&& effects@.len() == 2
                    &&& is_report_stopped(effects@[0], v.current_item_id->0, false)
                    &&& effects@[1] is StopAudioTask
                } else {
                    final(self).view() == v && effects@.len() == 0
                }
            }),
    {
        let mut effects: Vec<PlayerEffect> = Vec::new();
        if !self.is_playing {
            return effects;
        }
        if let Some(id) = &self.current_item_id {
            effects.push(PlayerEffect::ReportStopped { item_id: id.clone(), played_to_completion: false });
        }
        effects.push(PlayerEffect::StopAudioTask);
        self.stop_flags();
        self.position_ticks = 0;
        effects
    }

    /// Stops playback for shutdown: reports the stopped item, if any, as not
    /// played to completion, then broadcasts `Stopped`.
    pub fn shutdown(&mut self) -> (effects: Vec<PlayerEffect>)
        requires
            old(self).view().wf(),
        ensures
            final(self).view() == old(self).view().stopped(),
            final(self).view().wf(),
            match old(self).view().current_item_id {
                Some(id) => effects@.len() == 2 && is_report_stopped(effects@[0], id, false)
                    && is_stopped_broadcast(effects@[1]),
                None => effects@.len() == 1 && is_stopped_broadcast(effects@[0]),
            },
    {
        let mut effects: Vec<PlayerEffect> = Vec::new();
        let stopped_item_id = self.current_item_id.take();
        self.is_playing = false;
        self.is_paused = false;
        if let Some(id) = stopped_item_id {
            effects.push(PlayerEffect::ReportStopped { item_id: id, played_to_completion: false });
        }
        effects.push(PlayerEffect::Broadcast(InternalPlayerStateUpdate::Stopped));
        effects
    }

    /// Handles the end of the audio task. An unexpected end while playing
    /// stops playback, reports the item as not played to completion and
    /// broadcasts `Stopped`; any other end changes nothing.
    pub fn audio_task_ended(&mut self, unexpected: bool) -> (effects: Vec<PlayerEffect>)
        requires
            old(self).view().wf(),
        ensures
            final(self).view().wf(),
            ({
                let v = old(self).view();
                if unexpected && v.is_playing {
                    &&& final(self).view() == v.stopped()
                    &&& effects@.len() == 2
                    &&& is_report_stopped(effects@[0], v.current_item_id->0, false)
                    &&& is_stopped_broadcast(effects@[1])
                } else {
                    final(self).view() == v && effects@.len() == 0
                }
            }),
    {
        let mut effects: Vec<PlayerEffect> = Vec::new();
        if unexpected && self.is_playing {
            let stopped_item_id = self.current_item_id.take();
            self.is_playing = false;
            self.is_paused = false;
            if let Some(id) = stopped_item_id {
                effects.push(PlayerEffect::ReportStopped { item_id: id, played_to_completion: false });
            }
            effects.push(PlayerEffect::Broadcast(InternalPlayerStateUpdate::Stopped));
        }
        effects
    }

    /// The periodic progress tick: while playing and not paused, a progress
    /// report, then, with a current item, its `Progress` broadcast.
    pub fn progress_tick(&self, position_ticks: i64) -> (effects: Vec<PlayerEffect>)
        requires
            self.view().wf(),
        ensures
            ({
                let v = self.view();
                if v.is_playing && !v.is_paused {
                    &&& effects@.len() == 2
                    &&& effects@[0] is ReportProgress
                    &&& effects@[1] matches PlayerEffect::Broadcast(
                        InternalPlayerStateUpdate::Progress { item_id, position_ticks: p },
                    ) && item_id == v.current_item_id->0 && p == position_ticks
                } else {
                    effects@.len() == 0
                }
            }),
    {
        let mut effects: Vec<PlayerEffect> = Vec::new();
        if self.is_playing && !self.is_paused {
            effects.push(PlayerEffect::ReportProgress);
            if let Some(id) = &self.current_item_id {
                effects.push(
                    PlayerEffect::Broadcast(
                        InternalPlayerStateUpdate::Progress { item_id: id.clone(), position_ticks },
                    ),
                );
            }
        }
        effects
    }

    /// Checks the current index before playback starts. With a valid index,
    /// returns the item to play and changes nothing; otherwise stops
    /// playback and returns the "Invalid queue index" error and `Stopped`
    /// broadcasts.
    pub fn prepare_playback(&mut self) -> (r: Result<MediaItem, Vec<PlayerEffect>>)
        requires
            old(self).view().wf(),
        ensures
            final(self).view().wf(),
            ({
                let v = old(self).view();
                if v.index < v.queue.len() {
                    final(self).view() == v && r == Ok::<MediaItem, Vec<PlayerEffect>>(v.queue[v.index])
                } else {
                    &&& final(self).view() == v.stopped()
                    &&& r matches Err(effects) && effects@.len() == 2
                        && is_error_broadcast(effects@[0], "Invalid queue index"@)
                        && is_stopped_broadcast(effects@[1])
                }
            }),
    {
        if self.current_queue_index < self.queue.len() {
            return Ok(self.queue[self.current_queue_index].copy());
        }
        self.stop_flags();
        let mut effects: Vec<PlayerEffect> = Vec::new();
        effects.push(
            PlayerEffect::Broadcast(InternalPlayerStateUpdate::Error(owned("Invalid queue index"))),
        );
        effects.push(PlayerEffect::Broadcast(InternalPlayerStateUpdate::Stopped));
        Err(effects)
    }

    /// Handles a failure to obtain the stream URL: stops playback and
    /// returns the error broadcast ("Failed to get stream URL: " and the
    /// cause) followed by `Stopped`.
    pub fn stream_url_failed(&mut self, cause: &str) -> (effects: Vec<PlayerEffect>)
        requires
            old(self).view().wf(),
        ensures
            final(self).view() == old(self).view().stopped(),
            final(self).view().wf(),
            effects@.len() == 2,
            is_error_broadcast(effects@[0], "Failed to get stream URL: "@ + cause@),
            is_stopped_broadcast(effects@[1]),
    {
        self.stop_flags();
        let mut effects: Vec<PlayerEffect> = Vec::new();
        effects.push(
            PlayerEffect::Broadcast(
                InternalPlayerStateUpdate::Error(concat2("Failed to get stream URL: ", cause)),
            ),
        );
        effects.push(PlayerEffect::Broadcast(InternalPlayerStateUpdate::Stopped));
        effects
    }
}

/// What starting playback of the current item produces: the item, the
/// start report body, the initial zero-position progress report body, and
/// the `Playing` and `QueueChanged` broadcasts.
#[derive(Debug)]
pub struct PlaybackStart {
    pub item: MediaItem,
    pub start_info: PlaybackStartInfoBody,
    pub initial_progress: PlaybackProgressInfoBody,
    pub playing: InternalPlayerStateUpdate,
    pub queue_changed: InternalPlayerStateUpdate,
}

impl Player {
    /// Marks the item at the current index as playing, unpaused, and returns
    /// what is reported and broadcast about it.
    pub fn playback_started(&mut self) -> (r: PlaybackStart)
        requires
            old(self).view().wf(),
            old(self).view().index < old(self).view().queue.len(),
        ensures
            final(self).view() == old(self).view().after_started(),
            final(self).view().is_playing,
            !final(self).view().is_paused,
            final(self).view().current_item_id == Some(old(self).view().queue[old(self).view().index].id),
            final(self).view().queue == old(self).view().queue,
            final(self).view().index == old(self).view().index,
            final(self).view().wf(),
            ({
                let v = old(self).view();
                let item = v.queue[v.index];
                &&& r.item == item
                &&& r.start_info.item_id == item.id
                &&& r.start_info.queue_item_id is None
                &&& r.start_info.can_seek
                &&& r.start_info.is_muted == v.is_muted
                &&& !r.start_info.is_paused
                &&& r.start_info.volume_level == v.volume_level
                &&& r.initial_progress.item_id == item.id
                &&& r.initial_progress.queue_item_id is None
                &&& r.initial_progress.can_seek
                &&& r.initial_progress.is_muted == v.is_muted
                &&& !r.initial_progress.is_paused
                &&& r.initial_progress.volume_level == v.volume_level
                &&& r.initial_progress.position_ticks == 0
                &&& r.initial_progress.event_name@ == "timeupdate"@
                &&& r.playing matches InternalPlayerStateUpdate::Playing { item: i, position_ticks, queue_ids, queue_index }
                    && i == item && position_ticks == 0 && queue_ids@ == ids_of(v.queue) && queue_index == v.index
                &&& is_queue_changed(PlayerEffect::Broadcast(r.queue_changed), ids_of(v.queue), v.index)
            }),
    {
        let item = self.queue[self.current_queue_index].copy();
        self.is_paused = false;
        self.is_playing = true;
        self.current_item_id = Some(item.id.clone());
        let start_info = PlaybackStartInfoBody {
            item_id: item.id.clone(),
            queue_item_id: None,
            can_seek: true,
            is_muted: self.is_muted,
            is_paused: self.is_paused,
            volume_level: self.volume_level,
        };
        let initial_progress = PlaybackProgressInfoBody {
            item_id: item.id.clone(),
            queue_item_id: None,
            can_seek: true,
            is_muted: self.is_muted,
            is_paused: false,
            volume_level: self.volume_level,
            position_ticks: 0,
            event_name: owned("timeupdate"),
        };
        let playing = InternalPlayerStateUpdate::Playing {
            item: item.copy(),
            position_ticks: 0,
            queue_ids: queue_ids(&self.queue),
            queue_index: self.current_queue_index,
        };
        let queue_changed = InternalPlayerStateUpdate::QueueChanged {
            queue_ids: queue_ids(&self.queue),
            current_index: self.current_queue_index,
        };
        PlaybackStart { item, start_info, initial_progress, playing, queue_changed }
    }

    /// A snapshot of the state with the given live position: the current
    /// item is the first queue item with the current id.
    pub fn get_full_state(&self, position_ticks: i64) -> (r: InternalPlayerState)
        requires
            self.view().wf(),
        ensures
            ({
                let v = self.view();
                &&& r.is_playing == v.is_playing
                &&& r.is_paused == v.is_paused
                &&& r.is_muted == v.is_muted
                &&& r.volume_level == v.volume_level
                &&& r.current_item == match v.current_item_id {
                    Some(id) => find_item(v.queue, id),
                    None => None,
                }
                &&& r.position_ticks == position_ticks
                &&& r.queue_ids@ == ids_of(v.queue)
                &&& r.current_queue_index == v.index
            }),
    {
        let current_item = match &self.current_item_id {
            Some(id) => find_item_by_id(&self.queue, id),
            None => None,
        };
        InternalPlayerState {
            is_playing: self.is_playing,
            is_paused: self.is_paused,
            is_muted: self.is_muted,
            volume_level: self.volume_level,
            current_item,
            position_ticks,
            queue_ids: queue_ids(&self.queue),
            current_queue_index: self.current_queue_index,
        }
    }
}

/// The effects of a failed fetch of item details: an error broadcast
/// ("Failed to fetch item details: " and the cause); the state is left as
/// it was.
pub fn fetch_failed(cause: &str) -> (effects: Vec<PlayerEffect>)
    ensures
        effects@.len() == 1,
        is_error_broadcast(effects@[0], "Failed to fetch item details: "@ + cause@),
{
    let mut effects: Vec<PlayerEffect> = Vec::new();
    effects.push(
        PlayerEffect::Broadcast(
            InternalPlayerStateUpdate::Error(concat2("Failed to fetch item details: ", cause)),
        ),
    );
    effects
}

/// "Play now" from a start position that names one of the fetched items
/// plays the fetched items from that one on: the queue is exactly that
/// tail, which is not empty, its first item is the one at the start
/// position, and the index points at it. From a start position past the
/// items, the queue ends up empty.
pub proof fn lemma_play_now_plays_from_start(v: PlayerView, fetched: Seq<MediaItem>, start: int)
    requires
        0 <= start,
    ensures
        start < fetched.len() ==> {
            let w = v.after_play_now(fetched, start);
            &&& w.queue == fetched.subrange(start, fetched.len() as int)
            &&& w.queue.len() == fetched.len() - start
            &&& w.queue[0] == fetched[start]
            &&& w.index == 0
        },
        start >= fetched.len() ==> v.after_play_now(fetched, start).queue.len() == 0,
{
}

/// Moving to the next item and back returns the player to the same state.
pub proof fn lemma_next_then_previous(v: PlayerView)
    requires
        v.wf(),
        v.index + 1 < v.queue.len(),
    ensures
        v.after_next().after_previous() == v,
{
}

/// Moving to the previous item and forward again returns the player to the same state.
pub proof fn lemma_previous_then_next(v: PlayerView)
    requires
        v.wf(),
        v.index > 0,
    ensures
        v.after_previous().after_next() == v,
{
}

/// Pausing playing audio and resuming it returns the player to the same state.
pub proof fn lemma_pause_then_resume(v: PlayerView)
    requires
        v.wf(),
        v.is_playing,
        !v.is_paused,
    ensures
        v.after_pause().after_resume() == v,
{
}

/// Toggling play/pause twice while playing returns the player to the same state.
pub proof fn lemma_toggle_twice(v: PlayerView)
    requires
        v.wf(),
        v.is_playing,
    ensures
        v.after_toggle().after_toggle() == v,
{
}

/// Toggling mute twice returns the player to the same state.
pub proof fn lemma_mute_toggle_twice(v: PlayerView)
    ensures
        v.after_mute_toggle().after_mute_toggle() == v,
{
}

/// Clearing an already cleared queue changes nothing.
pub proof fn lemma_clear_idempotent(v: PlayerView)
    ensures
        v.cleared().cleared() == v.cleared(),
{
}

/// Adding fetched items appends them, in order, to the end of the queue.
pub proof fn lemma_add_appends(v: PlayerView, fetched: Seq<MediaItem>)
    ensures
        v.after_add(fetched).queue == v.queue + fetched,
{
    if fetched.len() == 0 {
        assert(v.queue + fetched =~= v.queue);
    }
}

/// With a current item, a well-formed state's snapshot finds it in the queue.
pub proof fn lemma_current_item_found(v: PlayerView)
    requires
        v.wf(),
        v.current_item_id is Some,
    ensures
        find_item(v.queue, v.current_item_id->0) is Some,
{
    let id = v.current_item_id->0;
    lemma_find_item_some(v.queue, id);
}

proof fn lemma_find_item_some(q: Seq<MediaItem>, id: String)
    requires
        exists|i: int| 0 <= i < q.len() && #[trigger] q[i].id == id,
    ensures
        find_item(q, id) is Some,
    decreases q.len(),
{
    if q[0].id@ != id@ {
        let i = choose|i: int| 0 <= i < q.len() && #[trigger] q[i].id == id;
        assert(i != 0);
        assert(q.drop_first()[i - 1].id == id);
        lemma_find_item_some(q.drop_first(), id);
    }
}

} // verus!
