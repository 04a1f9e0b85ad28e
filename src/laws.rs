use vstd::prelude::*;
use crate::command::{AudioCommand, CommandResponse, EventKind, Notification};
use crate::engine::{
    Action, AudioState, DeviceStatus, Outcome, Progress, Step, RESTART_THRESHOLD_SECS, completed,
    failure, handled, load_of, playing_note, progressed, reports_queue,
};
use crate::error::AudioError;

verus! {

/// Playing track `i` of a queue that holds it, once the device has loaded it,
/// makes `i` the current index and reports track `i` of the queue.
pub proof fn play_at_selects_track(
    pre: AudioState,
    i: usize,
    device: DeviceStatus,
    mid: AudioState,
    action: Action,
    outcome: Outcome,
    post: AudioState,
    note: Notification,
)
    requires
        pre.wf(),
        i < pre.queue@.len(),
        handled(pre, AudioCommand::Play(i), device, mid, Step::Perform(action)),
        completed(mid, action, outcome, post, note),
        outcome !is Failed,
    ensures
        post.current_index == i,
        post.queue@ == pre.queue@,
        note == playing_note(pre, i as int),
{
}

/// Playing an index past the end of the queue changes nothing and reports
/// that the index is out of bounds.
pub proof fn play_at_out_of_range(
    pre: AudioState,
    i: usize,
    device: DeviceStatus,
    post: AudioState,
    step: Step,
)
    requires
        pre.wf(),
        i >= pre.queue@.len(),
        handled(pre, AudioCommand::Play(i), device, post, step),
    ensures
        post.current_index == pre.current_index,
        post.queue@ == pre.queue@,
        step == failure(EventKind::Play, AudioError::OutOfBoundsError),
{
}

/// "Next" on the last track of a queue that does not loop changes nothing and
/// reports that the index is out of bounds.
pub proof fn next_at_end_without_loop(
    pre: AudioState,
    device: DeviceStatus,
    post: AudioState,
    step: Step,
)
    requires
        pre.wf(),
        pre.queue@.len() > 0,
        pre.current_index == pre.queue@.len() - 1,
        !pre.looped,
        handled(pre, AudioCommand::Next, device, post, step),
    ensures
        post.current_index == pre.current_index,
        step == failure(EventKind::Play, AudioError::OutOfBoundsError),
{
}

/// "Next" on the last track of a looping queue wraps to the first track and
/// starts it.
pub proof fn next_at_end_with_loop(
    pre: AudioState,
    device: DeviceStatus,
    mid: AudioState,
    action: Action,
    outcome: Outcome,
    post: AudioState,
    note: Notification,
)
    requires
        pre.wf(),
        pre.queue@.len() > 0,
        pre.current_index == pre.queue@.len() - 1,
        pre.looped,
        handled(pre, AudioCommand::Next, device, mid, Step::Perform(action)),
        completed(mid, action, outcome, post, note),
        outcome !is Failed,
    ensures
        load_of(pre, 0) == Step::Perform(action),
        post.current_index == 0,
        note == playing_note(pre, 0),
{
}

/// "Previous" before the restart threshold moves back one track (but not
/// below the first); from the threshold on it restarts the current track.
pub proof fn prev_moves_back_or_restarts(
    pre: AudioState,
    device: DeviceStatus,
    mid: AudioState,
    action: Action,
    outcome: Outcome,
    post: AudioState,
    note: Notification,
)
    requires
        pre.wf(),
        pre.queue@.len() > 0,
        handled(pre, AudioCommand::Prev, device, mid, Step::Perform(action)),
        completed(mid, action, outcome, post, note),
        outcome !is Failed,
    ensures
        device.position < RESTART_THRESHOLD_SECS ==> post.current_index == if pre.current_index > 0 {
            pre.current_index - 1
        } else {
            0
        },
        device.position >= RESTART_THRESHOLD_SECS ==> post.current_index == pre.current_index,
        note == playing_note(pre, post.current_index as int),
{
}

/// At the end of a track the worker posts exactly one advance: the next
/// track, the first track of a looping queue, or a pause after the last track
/// of one that does not loop. It never names an index past the queue.
pub proof fn end_of_track_advances(
    pre: AudioState,
    device: DeviceStatus,
    since_report_ms: u64,
    post: AudioState,
    r: Progress,
)
    requires
        pre.wf(),
        progressed(pre, device, since_report_ms, post, r),
    ensures
        r.advance matches Some(AudioCommand::Play(j)) ==> j < pre.queue@.len(),
        r.advance is Some ==> post.advancing && !pre.advancing,
        (!device.empty && !device.paused && pre.ended(device) && !pre.advancing
            && pre.queue@.len() > 0) ==> r.advance == Some(
            if pre.current_index + 1 < pre.queue@.len() {
                AudioCommand::Play((pre.current_index + 1) as usize)
            } else if pre.looped {
                AudioCommand::Play(0)
            } else {
                AudioCommand::Pause
            },
        ),
        post.current_index == pre.current_index,
{
}

/// On a looping queue the end of a track never pauses and never fails: any
/// advance plays a track of the queue.
pub proof fn looped_queue_keeps_playing(
    pre: AudioState,
    device: DeviceStatus,
    since_report_ms: u64,
    post: AudioState,
    r: Progress,
)
    requires
        pre.wf(),
        pre.looped,
        progressed(pre, device, since_report_ms, post, r),
    ensures
        r.advance is Some ==> (r.advance->Some_0 matches AudioCommand::Play(j) && j
            < pre.queue@.len()),
{
}

/// Clearing empties the queue and resets the current index to 0, whatever the
/// state before; the queue then reported is empty.
pub proof fn clear_resets(
    pre: AudioState,
    device: DeviceStatus,
    mid: AudioState,
    action: Action,
    outcome: Outcome,
    post: AudioState,
    note: Notification,
)
    requires
        pre.wf(),
        handled(pre, AudioCommand::Clear, device, mid, Step::Perform(action)),
        completed(mid, action, outcome, post, note),
    ensures
        mid.current_index == 0,
        mid.queue@.len() == 0,
        post.current_index == 0,
        post.queue@.len() == 0,
        reports_queue(note, seq![]),
{
    assert(mid.queue@ =~= seq![]);
}

/// The volume set is the volume the state then holds, and the one reported.
pub proof fn volume_round_trip(
    pre: AudioState,
    v: u32,
    device: DeviceStatus,
    mid: AudioState,
    action: Action,
    outcome: Outcome,
    post: AudioState,
    note: Notification,
)
    requires
        pre.wf(),
        handled(pre, AudioCommand::SetVolume(v), device, mid, Step::Perform(action)),
        completed(mid, action, outcome, post, note),
    ensures
        mid.volume == v,
        post.volume == v,
        note == (Notification { event: EventKind::Volume, result: Ok(CommandResponse::Volume(v)) }),
{
}

/// Once looping is switched on, "next" on a non-empty queue always plays a
/// track: it is never out of bounds.
pub proof fn looping_lifts_end_of_queue(
    pre: AudioState,
    device: DeviceStatus,
    mid: AudioState,
    first: Step,
    post: AudioState,
    step: Step,
)
    requires
        pre.wf(),
        pre.queue@.len() > 0,
        handled(pre, AudioCommand::SetLooped(true), device, mid, first),
        handled(mid, AudioCommand::Next, device, post, step),
    ensures
        mid.looped,
        step != failure(EventKind::Play, AudioError::OutOfBoundsError),
        step is Perform && step->Perform_0 is Load,
{
}

/// Pausing twice in a row reports the same paused status both times, without
/// an error, and the second pause changes nothing.
pub proof fn pause_is_idempotent(
    pre: AudioState,
    device: DeviceStatus,
    s1: AudioState,
    a1: Action,
    o1: Outcome,
    s2: AudioState,
    n1: Notification,
    later: DeviceStatus,
    s3: AudioState,
    a2: Action,
    o2: Outcome,
    s4: AudioState,
    n2: Notification,
)
    requires
        pre.wf(),
        handled(pre, AudioCommand::Pause, device, s1, Step::Perform(a1)),
        completed(s1, a1, o1, s2, n1),
        handled(s2, AudioCommand::Pause, later, s3, Step::Perform(a2)),
        completed(s3, a2, o2, s4, n2),
    ensures
        n1.event == EventKind::Status,
        n2.event == EventKind::Status,
        n1.result matches Ok(CommandResponse::Status(m)) && m@ == "paused"@,
        n2.result matches Ok(CommandResponse::Status(m)) && m@ == "paused"@,
        s4.queue@ == s2.queue@,
        s4.current_index == s2.current_index,
        s4.duration == s2.duration,
        s4.looped == s2.looped,
        s4.volume == s2.volume,
        s4.advancing == s2.advancing,
{
}

} // verus!
