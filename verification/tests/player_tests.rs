use r_jellycli::jellyfin::api::PLAYING_PATH;
use r_jellycli::jellyfin::reporter::{
    playback_progress_report, playback_start_report, playback_stop_report, PlaybackProgressInfoBody,
    PlaybackStartInfoBody, PlaybackStopInfoBody,
};
use r_jellycli::jellyfin::MediaItem;
use r_jellycli::player::item_fetcher::order_items_by_ids;
use r_jellycli::player::machine::{find_item_by_id, queue_ids, PlayerEffect};
use r_jellycli::player::reporting::{build_progress_info, ReportingAction, ReportingEvent, ReportingTask};
use r_jellycli::player::{InternalPlayerState, InternalPlayerStateUpdate, Player};
use r_jellycli::player::state::ReportingCommand;

fn item(id: &str) -> MediaItem {
    MediaItem {
        id: id.to_string(),
        name: format!("Track {}", id),
        media_type: "Audio".to_string(),
        overview: None,
        path: None,
        is_folder: false,
        run_time_ticks: None,
    }
}

fn ids(p: &Player) -> Vec<String> {
    queue_ids(p.queue())
}

#[test]
fn play_now_replaces_the_queue() {
    let mut p = Player::new();
    let effects = p.play_now(vec![item("a"), item("b"), item("c")], 1);
    assert_eq!(ids(&p), vec!["b".to_string(), "c".to_string()]);
    assert_eq!(p.current_queue_index(), 0);
    assert!(matches!(effects[0], PlayerEffect::StopAudioTask));
    assert!(matches!(effects.last(), Some(PlayerEffect::PlayCurrentItem)));
    let empty = p.play_now(vec![item("a")], 5);
    assert!(p.queue().is_empty());
    assert!(!matches!(empty.last(), Some(PlayerEffect::PlayCurrentItem)));
}

#[test]
fn next_then_previous_returns() {
    let mut p = Player::new();
    p.add_to_queue(vec![item("a"), item("b"), item("c")]);
    assert_eq!(p.current_queue_index(), 0);
    assert_eq!(p.next().len(), 1);
    assert_eq!(p.current_queue_index(), 1);
    assert_eq!(p.previous().len(), 1);
    assert_eq!(p.current_queue_index(), 0);
    assert!(p.previous().is_empty());
    p.next();
    p.next();
    assert!(p.next().is_empty());
    assert_eq!(p.current_queue_index(), 2);
}

#[test]
fn pause_resume_and_toggle() {
    let mut p = Player::new();
    p.add_to_queue(vec![item("a")]);
    assert!(p.pause(10).is_empty());
    let start = p.playback_started();
    assert_eq!(start.item.id, "a");
    assert!(p.is_playing());
    let paused = p.pause(42);
    assert!(p.is_paused());
    assert!(matches!(
        &paused[0],
        PlayerEffect::Broadcast(InternalPlayerStateUpdate::Paused { position_ticks: 42, .. })
    ));
    p.resume(50);
    assert!(!p.is_paused());
    p.play_pause_toggle(60);
    p.play_pause_toggle(70);
    assert!(!p.is_paused());
    assert!(p.is_playing());
}

#[test]
fn clear_queue_twice_is_clear() {
    let mut p = Player::new();
    p.add_to_queue(vec![item("a"), item("b")]);
    p.playback_started();
    let first = p.clear_queue();
    assert_eq!(first.len(), 5);
    assert!(matches!(
        &first[2],
        PlayerEffect::ReportStopped { played_to_completion: false, .. }
    ));
    let second = p.clear_queue();
    assert_eq!(second.len(), 4);
    assert!(p.queue().is_empty());
    assert!(!p.is_playing());
}

#[test]
fn track_finished_advances() {
    let mut p = Player::new();
    p.add_to_queue(vec![item("a"), item("b")]);
    p.playback_started();
    let effects = p.track_finished();
    assert!(matches!(
        &effects[0],
        PlayerEffect::ReportStopped { played_to_completion: true, .. }
    ));
    assert_eq!(p.current_queue_index(), 1);
    p.playback_started();
    p.track_finished();
    assert_eq!(p.current_queue_index(), 1);
    assert!(!p.is_playing());
}

#[test]
fn volume_and_mute() {
    let mut p = Player::new();
    assert_eq!(p.get_volume(), 100);
    p.set_volume(30);
    assert_eq!(p.get_volume(), 30);
    p.set_volume(200);
    assert_eq!(p.get_volume(), 100);
    p.toggle_mute();
    assert!(p.is_muted());
    p.toggle_mute();
    assert!(!p.is_muted());
}

#[test]
fn stream_url_failure_stops() {
    let mut p = Player::new();
    p.add_to_queue(vec![item("a")]);
    p.playback_started();
    let effects = p.stream_url_failed("no key");
    assert!(matches!(
        &effects[0],
        PlayerEffect::Broadcast(InternalPlayerStateUpdate::Error(m)) if m == "Failed to get stream URL: no key"
    ));
    assert!(!p.is_playing());
}

#[test]
fn items_follow_requested_order() {
    let fetched = vec![item("c"), item("x"), item("a"), item("b")];
    let wanted = vec!["a".to_string(), "b".to_string(), "c".to_string()];
    let ordered = order_items_by_ids(&fetched, &wanted);
    let got: Vec<&str> = ordered.iter().map(|i| i.id.as_str()).collect();
    assert_eq!(got, vec!["a", "b", "c"]);
    assert_eq!(find_item_by_id(&fetched, &"x".to_string()).map(|i| i.id), Some("x".to_string()));
    assert!(find_item_by_id(&fetched, &"z".to_string()).is_none());
}

fn snapshot(current: Option<MediaItem>, ticks: i64) -> InternalPlayerState {
    InternalPlayerState {
        is_playing: current.is_some(),
        is_paused: false,
        is_muted: false,
        volume_level: 80,
        current_item: current,
        position_ticks: ticks,
        queue_ids: vec![],
        current_queue_index: 0,
    }
}

#[test]
fn reporting_task_reports_and_stops() {
    let info = build_progress_info(&snapshot(Some(item("a")), 7), "timeupdate");
    assert_eq!(info.item_id, "a");
    assert_eq!(info.position_ticks, 7);
    assert_eq!(info.event_name, "timeupdate");

    let mut task = ReportingTask::new(snapshot(Some(item("a")), 0));
    let now = task.step(ReportingEvent::Command(ReportingCommand::ReportProgressNow), 100);
    assert!(matches!(&now[0], ReportingAction::SendProgress(b) if b.position_ticks == 100));
    let same = task.step(ReportingEvent::Command(ReportingCommand::ReportProgressNow), 100);
    assert!(same.is_empty());
    let stop = task.step(ReportingEvent::Command(ReportingCommand::StopAndReport), 120);
    assert!(matches!(&stop[0], ReportingAction::SendStopped(b) if b.item_id == "a" && b.position_ticks == 120));
    assert!(matches!(stop[1], ReportingAction::Terminate));

    let mut idle = ReportingTask::new(snapshot(None, 0));
    let closed = idle.step(ReportingEvent::ChannelClosed, 0);
    assert_eq!(closed.len(), 1);
    assert!(matches!(closed[0], ReportingAction::Terminate));
}

#[test]
fn reports_carry_defaults() {
    let start = PlaybackStartInfoBody {
        item_id: "a".to_string(),
        queue_item_id: None,
        can_seek: true,
        is_muted: false,
        is_paused: false,
        volume_level: 50,
    };
    let r = playback_start_report(&start, "ps");
    assert_eq!(r.base.item_id, "a");
    assert_eq!(r.base.play_session_id, "ps");
    assert_eq!(r.base.play_method, "DirectPlay");
    assert_eq!(r.base.queueable_media_types, vec!["Audio".to_string()]);
    let progress = PlaybackProgressInfoBody {
        item_id: "a".to_string(),
        queue_item_id: None,
        can_seek: true,
        is_muted: true,
        is_paused: true,
        volume_level: 10,
        position_ticks: 99,
        event_name: "pause".to_string(),
    };
    let pr = playback_progress_report(&progress, "ps");
    assert_eq!(pr.base.position_ticks, 99);
    assert!(pr.base.is_paused);
    let stop = PlaybackStopInfoBody { item_id: "a".to_string(), queue_item_id: None, position_ticks: 5 };
    let sr = playback_stop_report(&stop, "ps");
    assert_eq!(sr.base.position_ticks, 5);
    assert_eq!(PLAYING_PATH, "/Sessions/Playing");
}

#[test]
fn stop_reports_and_resets() {
    let mut p = Player::new();
    assert!(p.stop().is_empty());
    p.add_to_queue(vec![item("a")]);
    p.playback_started();
    p.update_position(500);
    let effects = p.stop();
    assert_eq!(effects.len(), 2);
    assert!(matches!(
        &effects[0],
        PlayerEffect::ReportStopped { item_id, played_to_completion: false } if item_id == "a"
    ));
    assert!(matches!(effects[1], PlayerEffect::StopAudioTask));
    assert!(!p.is_playing());
    assert_eq!(p.get_position(), 0);
    assert_eq!(p.queue().len(), 1);
}

#[test]
fn failed_fetch_is_broadcast() {
    let effects = r_jellycli::player::machine::fetch_failed("timeout");
    assert_eq!(effects.len(), 1);
    assert!(matches!(
        &effects[0],
        PlayerEffect::Broadcast(InternalPlayerStateUpdate::Error(m)) if m == "Failed to fetch item details: timeout"
    ));
}

#[test]
fn timer_ticks_report_progress_while_playing() {
    let mut task = ReportingTask::new(snapshot(Some(item("a")), 0));
    let first = task.step(ReportingEvent::TimerTick, 0);
    assert_eq!(first.len(), 1);
    assert!(matches!(&first[0], ReportingAction::SendProgress(b) if b.position_ticks == 0 && b.item_id == "a"));
    let moved = task.step(ReportingEvent::TimerTick, 10_000_000);
    assert_eq!(moved.len(), 2);
    assert!(matches!(&moved[0], ReportingAction::SendProgress(b) if b.position_ticks == 10_000_000));
    assert!(matches!(moved[1], ReportingAction::UseStandardInterval));
    let later = task.step(ReportingEvent::TimerTick, 20_000_000);
    assert_eq!(later.len(), 1);
    assert!(matches!(&later[0], ReportingAction::SendProgress(b) if b.event_name == "timeupdate"));

    let mut paused_state = snapshot(Some(item("a")), 0);
    paused_state.is_paused = true;
    let mut paused = ReportingTask::new(paused_state);
    assert!(paused.step(ReportingEvent::TimerTick, 5).is_empty());
    let mut idle = ReportingTask::new(snapshot(None, 0));
    assert!(idle.step(ReportingEvent::TimerTick, 5).is_empty());
}

#[test]
fn ordering_keeps_every_requested_copy() {
    let fetched = vec![item("b"), item("a"), item("b"), item("q")];
    let wanted = vec!["b".to_string(), "a".to_string(), "b".to_string()];
    let ordered = order_items_by_ids(&fetched, &wanted);
    let got: Vec<&str> = ordered.iter().map(|i| i.id.as_str()).collect();
    assert_eq!(got, vec!["a", "b", "b"]);
}
