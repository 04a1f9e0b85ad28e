use music_player::command::{AudioCommand, CommandResponse, EventKind, Notification, QueueSnapshot};
use music_player::engine::{Action, AudioState, DeviceStatus, Outcome, Step};
use music_player::error::AudioError;
use music_player::track::{TrackInfo, TrackTags};
use std::sync::mpsc;

fn device(empty: bool, paused: bool, position: u64) -> DeviceStatus {
    DeviceStatus { empty, paused, position }
}

fn playing(position: u64) -> DeviceStatus {
    device(false, false, position)
}

fn tags(title: &str, duration: u64) -> Option<TrackTags> {
    Some(TrackTags {
        title: Some(title.to_string()),
        artist: Some("Artist".to_string()),
        album: Some("Album".to_string()),
        duration,
    })
}

/// A state holding `n` tracks named t0, t1, ... of 180 seconds each.
fn state_with(n: usize) -> AudioState {
    let mut s = AudioState::new();
    let paths: Vec<String> = (0..n).map(|i| format!("/music/t{}.mp3", i)).collect();
    let step = s.handle_audio_command(AudioCommand::Queue(paths.clone()), device(true, false, 0));
    assert_eq!(step, Step::Perform(Action::Resolve(paths)));
    let resolved = (0..n).map(|i| tags(&format!("t{}", i), 180)).collect();
    let Step::Perform(action) = step else { unreachable!() };
    let note = s.complete(action, Outcome::Resolved(resolved));
    assert_eq!(note.event, EventKind::Queue);
    s
}

/// Runs a command through to its notification, the device doing what it is asked.
fn run(s: &mut AudioState, command: AudioCommand, dev: DeviceStatus) -> Notification {
    match s.handle_audio_command(command, dev) {
        Step::Emit(note) => note,
        Step::Perform(action) => s.complete(action, Outcome::Done),
        Step::Silent => panic!("no notification"),
    }
}

fn played(note: &Notification) -> usize {
    match &note.result {
        Ok(CommandResponse::Play { index, .. }) => *index,
        other => panic!("not a play report: {:?}", other),
    }
}

#[test]
fn new_state_is_empty() {
    let s = AudioState::new();
    assert!(s.queue.is_empty());
    assert_eq!(s.current_index, 0);
    assert_eq!(s.duration, None);
    assert!(!s.looped);
    assert_eq!(s.volume, 100);
}

#[test]
fn queue_appends_in_order_with_running_indices() {
    let mut s = state_with(2);
    let paths = vec!["/music/a.flac".to_string(), "/music/broken.wav".to_string()];
    let Step::Perform(action) = s.handle_audio_command(AudioCommand::Queue(paths), playing(0)) else {
        panic!("expected an action")
    };
    let note = s.complete(action, Outcome::Resolved(vec![tags("A", 61), None]));
    assert_eq!(s.queue.len(), 4);
    assert_eq!(s.queue[0].title, "t0");
    assert_eq!(s.queue[2].index, 2);
    assert_eq!(s.queue[2].title, "A");
    assert_eq!(s.queue[2].duration, 61);
    assert_eq!(s.queue[3].index, 3);
    assert_eq!(s.queue[3].title, "Unknown Track");
    assert_eq!(s.queue[3].artist, "Unknown Artist");
    assert_eq!(s.queue[3].album, "Unknown Album");
    assert_eq!(s.queue[3].duration, 0);
    assert_eq!(s.queue[3].path, "/music/broken.wav");
    assert_eq!(note.result, Ok(CommandResponse::Queue(s.queue.clone())));
}

#[test]
fn queue_with_missing_tag_results_uses_placeholders() {
    let mut s = AudioState::new();
    let paths = vec!["/x.mp3".to_string()];
    let Step::Perform(action) = s.handle_audio_command(AudioCommand::Queue(paths), playing(0)) else {
        panic!("expected an action")
    };
    s.complete(action, Outcome::Done);
    assert_eq!(s.queue.len(), 1);
    assert_eq!(s.queue[0].title, "Unknown Track");
}

#[test]
fn play_at_valid_index_selects_track() {
    let mut s = state_with(3);
    let step = s.handle_audio_command(AudioCommand::Play(2), playing(0));
    assert_eq!(step, Step::Perform(Action::Load { index: 2, track: s.queue[2].clone() }));
    let Step::Perform(action) = step else { unreachable!() };
    let note = s.complete(action, Outcome::Done);
    assert_eq!(s.current_index, 2);
    assert_eq!(s.duration, Some(180));
    assert_eq!(
        note,
        Notification {
            event: EventKind::Play,
            result: Ok(CommandResponse::Play { index: 2, track: s.queue[2].clone() }),
        }
    );
}

#[test]
fn play_at_out_of_range_reports_out_of_bounds() {
    let mut s = state_with(3);
    run(&mut s, AudioCommand::Play(1), playing(0));
    let note = run(&mut s, AudioCommand::Play(3), playing(0));
    assert_eq!(note.event, EventKind::Play);
    assert_eq!(note.result, Err(AudioError::OutOfBoundsError));
    assert_eq!(s.current_index, 1);
}

#[test]
fn play_on_empty_queue_is_out_of_bounds() {
    let mut s = AudioState::new();
    let note = run(&mut s, AudioCommand::Play(0), device(true, false, 0));
    assert_eq!(note.result, Err(AudioError::OutOfBoundsError));
}

#[test]
fn failed_load_keeps_index() {
    let mut s = state_with(3);
    run(&mut s, AudioCommand::Play(0), playing(0));
    let Step::Perform(action) = s.handle_audio_command(AudioCommand::Next, playing(3)) else {
        panic!("expected an action")
    };
    let note = s.complete(action, Outcome::Failed(AudioError::DecoderError));
    assert_eq!(note.result, Err(AudioError::DecoderError));
    assert_eq!(s.current_index, 0);
}

#[test]
fn next_moves_forward() {
    let mut s = state_with(3);
    run(&mut s, AudioCommand::Play(0), playing(0));
    let note = run(&mut s, AudioCommand::Next, playing(10));
    assert_eq!(played(&note), 1);
    assert_eq!(s.current_index, 1);
}

#[test]
fn next_at_end_without_loop_is_out_of_bounds() {
    let mut s = state_with(3);
    run(&mut s, AudioCommand::Play(2), playing(0));
    let note = run(&mut s, AudioCommand::Next, playing(10));
    assert_eq!(note.result, Err(AudioError::OutOfBoundsError));
    assert_eq!(s.current_index, 2);
}

#[test]
fn next_at_end_with_loop_wraps() {
    let mut s = state_with(3);
    run(&mut s, AudioCommand::Play(2), playing(0));
    run(&mut s, AudioCommand::SetLooped(true), playing(1));
    let note = run(&mut s, AudioCommand::Next, playing(10));
    assert_eq!(played(&note), 0);
    assert_eq!(s.current_index, 0);
}

#[test]
fn prev_within_threshold_goes_back() {
    let mut s = state_with(3);
    run(&mut s, AudioCommand::Play(2), playing(0));
    let note = run(&mut s, AudioCommand::Prev, playing(4));
    assert_eq!(played(&note), 1);
    assert_eq!(s.current_index, 1);
}

#[test]
fn prev_at_threshold_restarts_current() {
    let mut s = state_with(3);
    run(&mut s, AudioCommand::Play(2), playing(0));
    let note = run(&mut s, AudioCommand::Prev, playing(5));
    assert_eq!(played(&note), 2);
    assert_eq!(s.current_index, 2);
}

#[test]
fn prev_on_first_track_restarts_it() {
    let mut s = state_with(3);
    run(&mut s, AudioCommand::Play(0), playing(0));
    let note = run(&mut s, AudioCommand::Prev, playing(1));
    assert_eq!(played(&note), 0);
    assert_eq!(s.current_index, 0);
}

#[test]
fn transport_on_empty_queue_reports_empty_queue() {
    let mut s = AudioState::new();
    for command in [AudioCommand::Resume, AudioCommand::Prev, AudioCommand::Next] {
        let note = run(&mut s, command, device(true, false, 0));
        assert_eq!(note.event, EventKind::Play);
        assert_eq!(note.result, Err(AudioError::EmptyQueueError));
    }
}

#[test]
fn resume_on_idle_device_plays_first_track() {
    let mut s = state_with(2);
    let step = s.handle_audio_command(AudioCommand::Resume, device(true, false, 0));
    assert_eq!(step, Step::Perform(Action::Load { index: 0, track: s.queue[0].clone() }));
}

#[test]
fn resume_on_loaded_device_unpauses() {
    let mut s = state_with(2);
    run(&mut s, AudioCommand::Play(1), playing(0));
    let step = s.handle_audio_command(AudioCommand::Resume, device(false, true, 7));
    assert_eq!(step, Step::Perform(Action::Resume));
    let Step::Perform(action) = step else { unreachable!() };
    let note = s.complete(action, Outcome::Done);
    assert_eq!(
        note.result,
        Ok(CommandResponse::Play { index: 1, track: s.queue[1].clone() })
    );
}

#[test]
fn pause_twice_reports_same_status() {
    let mut s = state_with(2);
    run(&mut s, AudioCommand::Play(0), playing(0));
    let first = run(&mut s, AudioCommand::Pause, playing(3));
    let second = run(&mut s, AudioCommand::Pause, device(false, true, 3));
    let paused = Notification {
        event: EventKind::Status,
        result: Ok(CommandResponse::Status("paused".to_string())),
    };
    assert_eq!(first, paused);
    assert_eq!(second, paused);
    assert_eq!(s.current_index, 0);
}

#[test]
fn seek_reports_device_position() {
    let mut s = state_with(1);
    let step = s.handle_audio_command(AudioCommand::SetPosition(42), playing(3));
    assert_eq!(step, Step::Perform(Action::Seek(42)));
    let note = s.complete(Action::Seek(42), Outcome::Position(41));
    assert_eq!(note.event, EventKind::Position);
    assert_eq!(note.result, Ok(CommandResponse::Position(41)));
    let note = s.complete(Action::Seek(42), Outcome::Done);
    assert_eq!(note.result, Ok(CommandResponse::Position(42)));
}

#[test]
fn seek_failure_reported() {
    let mut s = state_with(1);
    let note = s.complete(Action::Seek(42), Outcome::Failed(AudioError::SeekError));
    assert_eq!(note.event, EventKind::Position);
    assert_eq!(note.result, Err(AudioError::SeekError));
}

#[test]
fn set_looped_echoes_value() {
    let mut s = state_with(1);
    let note = run(&mut s, AudioCommand::SetLooped(true), playing(0));
    assert_eq!(note, Notification { event: EventKind::Looped, result: Ok(CommandResponse::Looped(true)) });
    assert!(s.looped);
}

#[test]
fn set_volume_reflected_in_query() {
    let mut s = state_with(2);
    let step = s.handle_audio_command(AudioCommand::SetVolume(35), playing(0));
    assert_eq!(step, Step::Perform(Action::SetVolume(35)));
    let Step::Perform(action) = step else { unreachable!() };
    let note = s.complete(action, Outcome::Done);
    assert_eq!(note, Notification { event: EventKind::Volume, result: Ok(CommandResponse::Volume(35)) });
    let (tx, rx) = mpsc::channel();
    assert_eq!(s.handle_audio_command(AudioCommand::QueryQueue(tx), playing(0)), Step::Silent);
    let snapshot: QueueSnapshot = rx.recv().unwrap();
    assert_eq!(snapshot.volume, 35);
    assert_eq!(snapshot.tracks, s.queue);
    assert_eq!(snapshot.current_index, 0);
    assert!(!snapshot.looped);
}

#[test]
fn set_looped_then_next_at_end_plays() {
    let mut s = state_with(3);
    run(&mut s, AudioCommand::Play(2), playing(0));
    assert_eq!(run(&mut s, AudioCommand::Next, playing(1)).result, Err(AudioError::OutOfBoundsError));
    run(&mut s, AudioCommand::SetLooped(true), playing(1));
    let note = run(&mut s, AudioCommand::Next, playing(1));
    assert!(note.result.is_ok());
    assert_eq!(played(&note), 0);
}

#[test]
fn clear_resets_queue_and_index() {
    let mut s = state_with(3);
    run(&mut s, AudioCommand::Play(2), playing(0));
    let step = s.handle_audio_command(AudioCommand::Clear, playing(9));
    assert_eq!(step, Step::Perform(Action::Stop));
    assert_eq!(s.current_index, 0);
    assert!(s.queue.is_empty());
    let note = s.complete(Action::Stop, Outcome::Done);
    assert_eq!(note, Notification { event: EventKind::Queue, result: Ok(CommandResponse::Queue(vec![])) });
}

#[test]
fn clear_on_empty_queue() {
    let mut s = AudioState::new();
    run(&mut s, AudioCommand::Clear, device(true, false, 0));
    assert_eq!(s.current_index, 0);
    assert!(s.queue.is_empty());
}

/// Lets the device reach the end of the current track and runs what the
/// worker posts to itself; returns the command posted.
fn finish_track(s: &mut AudioState) -> Option<AudioCommand> {
    let end = s.duration.unwrap_or(0);
    let progress = s.track_progress(playing(end), 0);
    let posted = progress.advance?;
    let echo = match &posted {
        AudioCommand::Play(i) => AudioCommand::Play(*i),
        AudioCommand::Pause => AudioCommand::Pause,
        other => panic!("unexpected advance {:?}", other),
    };
    run(s, echo, playing(end));
    Some(posted)
}

#[test]
fn auto_advance_through_queue_then_pause() {
    let mut s = state_with(3);
    run(&mut s, AudioCommand::Play(0), playing(0));
    assert!(matches!(finish_track(&mut s), Some(AudioCommand::Play(1))));
    assert_eq!(s.current_index, 1);
    assert!(matches!(finish_track(&mut s), Some(AudioCommand::Play(2))));
    assert_eq!(s.current_index, 2);
    assert!(matches!(finish_track(&mut s), Some(AudioCommand::Pause)));
    assert_eq!(s.current_index, 2);
    // The device is paused now: nothing more is posted.
    let progress = s.track_progress(device(false, true, 180), 1000);
    assert!(progress.advance.is_none());
    assert!(progress.report.is_none());
    assert_eq!(s.current_index, 2);
}

#[test]
fn auto_advance_looped_wraps() {
    let mut s = state_with(3);
    run(&mut s, AudioCommand::SetLooped(true), playing(0));
    run(&mut s, AudioCommand::Play(0), playing(0));
    let mut seen = Vec::new();
    for _ in 0..7 {
        match finish_track(&mut s) {
            Some(AudioCommand::Play(i)) => seen.push(i),
            other => panic!("unexpected advance {:?}", other),
        }
        assert_eq!(s.current_index, *seen.last().unwrap());
    }
    assert_eq!(seen, vec![1, 2, 0, 1, 2, 0, 1]);
}

#[test]
fn advance_posted_once_until_settled() {
    let mut s = state_with(3);
    run(&mut s, AudioCommand::Play(0), playing(0));
    assert!(matches!(s.track_progress(playing(180), 0).advance, Some(AudioCommand::Play(1))));
    assert!(s.track_progress(playing(181), 0).advance.is_none());
    run(&mut s, AudioCommand::Play(1), playing(181));
    assert!(s.track_progress(playing(10), 0).advance.is_none());
    assert!(matches!(s.track_progress(playing(180), 0).advance, Some(AudioCommand::Play(2))));
}

#[test]
fn overshooting_position_still_advances() {
    let mut s = state_with(2);
    run(&mut s, AudioCommand::Play(0), playing(0));
    assert!(matches!(s.track_progress(playing(200), 0).advance, Some(AudioCommand::Play(1))));
}

#[test]
fn no_advance_before_end() {
    let mut s = state_with(2);
    run(&mut s, AudioCommand::Play(0), playing(0));
    assert!(s.track_progress(playing(179), 0).advance.is_none());
}

#[test]
fn position_report_is_throttled() {
    let mut s = state_with(2);
    run(&mut s, AudioCommand::Play(0), playing(0));
    assert!(s.track_progress(playing(12), 499).report.is_none());
    assert_eq!(
        s.track_progress(playing(12), 500).report,
        Some(Notification { event: EventKind::Position, result: Ok(CommandResponse::Position(12)) })
    );
    assert!(s.track_progress(device(true, false, 12), 900).report.is_none());
}

#[test]
fn track_clone_is_equal() {
    let t = TrackInfo::from_tags("/a.mp3", 4, tags("A", 9));
    assert_eq!(t.clone(), t);
}
