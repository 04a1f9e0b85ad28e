use vstd::prelude::*;
use crate::command::{AudioCommand, CommandResponse, EventKind, Notification, QueueSnapshot};
use crate::error::AudioError;
use crate::player::send_on;
use crate::track::{TrackInfo, TrackTags, describes};

verus! {

/// Below this many seconds into a track, "previous" moves back one track;
/// from here on it restarts the current one.
pub const RESTART_THRESHOLD_SECS: u64 = 5;

/// Least time between two position reports, in milliseconds.
pub const REPORT_INTERVAL_MS: u64 = 500;

/// Volume of a fresh worker, in percent of the source level.
pub const FULL_VOLUME: u32 = 100;

/// What the worker observes of the output device before it decides.
#[derive(Debug, Clone, Copy, PartialEq, Eq)]
pub struct DeviceStatus {
    /// Nothing is loaded.
    pub empty: bool,
    pub paused: bool,
    /// Whole seconds played of the loaded track.
    pub position: u64,
}

/// Work that only the device, or the reader of track tags, can do; the worker
/// settles the command with `AudioState::complete` once it is done.
#[derive(Debug, PartialEq, Eq)]
pub enum Action {
    /// Read the tags of the files at these paths.
    Resolve(Vec<String>),
    /// Stop what plays, load this track from its path and start it.
    Load { index: usize, track: TrackInfo },
    Pause,
    /// Un-pause the loaded track.
    Resume,
    /// Seek to this many seconds into the loaded track.
    Seek(u64),
    /// Volume in percent of the source level.
    SetVolume(u32),
    /// Stop and unload.
    Stop,
}

/// How an action went.
#[derive(Debug, PartialEq, Eq)]
pub enum Outcome {
    Done,
    /// The seek went through; the device is now this many seconds in.
    Position(u64),
    /// One entry per path asked for, in that order; `None` for a file that
    /// could not be read.
    Resolved(Vec<Option<TrackTags>>),
    Failed(AudioError),
}

/// What a command asks of the worker right away.
#[derive(Debug, PartialEq, Eq)]
pub enum Step {
    /// Send this notification; nothing is asked of the device.
    Emit(Notification),
    /// Carry this out, then settle it.
    Perform(Action),
    /// Nothing to send or to do.
    Silent,
}

/// What one look at the playing track asks of the worker.
#[derive(Debug)]
pub struct Progress {
    /// A command the worker posts to its own channel.
    pub advance: Option<AudioCommand>,
    /// A position report to send.
    pub report: Option<Notification>,
}

/// The state that the playback worker alone owns.
pub struct AudioState {
    pub queue: Vec<TrackInfo>,
    pub current_index: usize,
    /// Length in seconds of the track last started, as its descriptor gave it.
    pub duration: Option<u64>,
    pub looped: bool,
    /// Volume in percent of the source level.
    pub volume: u32,
    /// The worker has posted an advance to itself that has not been settled.
    pub advancing: bool,
}

impl AudioState {
    /// The current index points into the queue, or is 0 for an empty queue.
    pub open spec fn wf(&self) -> bool {
        ||| self.current_index < self.queue@.len()
        ||| self.queue@.len() == 0 && self.current_index == 0
    }

    /// The device has played the current track to its end.
    pub open spec fn ended(&self, device: DeviceStatus) -> bool {
        device.position >= match self.duration {
            Some(d) => d,
            None => 0,
        }
    }
}

/// `post` is `pre` with nothing changed.
pub open spec fn unchanged(pre: AudioState, post: AudioState) -> bool {
    &&& post.queue@ == pre.queue@
    &&& post.current_index == pre.current_index
    &&& post.duration == pre.duration
    &&& post.looped == pre.looped
    &&& post.volume == pre.volume
    &&& post.advancing == pre.advancing
}

/// The index that "previous" moves to.
pub open spec fn prev_target(s: AudioState, device: DeviceStatus) -> int {
    if s.current_index > 0 && device.position < RESTART_THRESHOLD_SECS {
        s.current_index - 1
    } else {
        s.current_index as int
    }
}

/// The index that "next", or the end of a track, moves to; `None` past the
/// last track of a queue that does not loop.
pub open spec fn next_target(s: AudioState) -> Option<int> {
    if s.current_index + 1 < s.queue@.len() {
        Some(s.current_index + 1)
    } else if s.looped {
        Some(0)
    } else {
        None
    }
}

pub open spec fn load_of(s: AudioState, i: int) -> Step {
    Step::Perform(Action::Load { index: i as usize, track: s.queue@[i] })
}

pub open spec fn failure(event: EventKind, e: AudioError) -> Step {
    Step::Emit(Notification { event, result: Err(e) })
}

/// Handling `command` in state `pre`, with the device as `device` shows it,
/// leads to `post` and asks for `step`.
pub open spec fn handled(
    pre: AudioState,
    command: AudioCommand,
    device: DeviceStatus,
    post: AudioState,
    step: Step,
) -> bool {
    match command {
        AudioCommand::Queue(paths) => unchanged(pre, post) && step == Step::Perform(
            Action::Resolve(paths),
        ),
        AudioCommand::Clear => {
            &&& post.queue@.len() == 0
            &&& post.current_index == 0
            &&& !post.advancing
            &&& post.duration == pre.duration
            &&& post.looped == pre.looped
            &&& post.volume == pre.volume
            &&& step == Step::Perform(Action::Stop)
        },
        AudioCommand::Play(i) => unchanged(pre, post) && step == if i < pre.queue@.len() {
            load_of(pre, i as int)
        } else {
            failure(EventKind::Play, AudioError::OutOfBoundsError)
        },
        AudioCommand::Pause => unchanged(pre, post) && step == Step::Perform(Action::Pause),
        AudioCommand::Resume => unchanged(pre, post) && step == if pre.queue@.len() == 0 {
            failure(EventKind::Play, AudioError::EmptyQueueError)
        } else if device.empty {
            load_of(pre, 0)
        } else {
            Step::Perform(Action::Resume)
        },
        AudioCommand::Prev => unchanged(pre, post) && step == if pre.queue@.len() == 0 {
            failure(EventKind::Play, AudioError::EmptyQueueError)
        } else {
            load_of(pre, prev_target(pre, device))
        },
        AudioCommand::Next => unchanged(pre, post) && step == if pre.queue@.len() == 0 {
            failure(EventKind::Play, AudioError::EmptyQueueError)
        } else {
            match next_target(pre) {
                Some(j) => load_of(pre, j),
                None => failure(EventKind::Play, AudioError::OutOfBoundsError),
            }
        },
        AudioCommand::SetPosition(p) => unchanged(pre, post) && step == Step::Perform(
            Action::Seek(p),
        ),
        AudioCommand::SetLooped(b) => {
            &&& post.queue@ == pre.queue@
            &&& post.current_index == pre.current_index
            &&& post.duration == pre.duration
            &&& post.looped == b
            &&& post.volume == pre.volume
            &&& post.advancing == pre.advancing
            &&& step == Step::Emit(
                Notification { event: EventKind::Looped, result: Ok(CommandResponse::Looped(b)) },
            )
        },
        AudioCommand::SetVolume(v) => {
            &&& post.queue@ == pre.queue@
            &&& post.current_index == pre.current_index
            &&& post.duration == pre.duration
            &&& post.looped == pre.looped
            &&& post.volume == v
            &&& post.advancing == pre.advancing
            &&& step == Step::Perform(Action::SetVolume(v))
        },
        AudioCommand::QueryQueue(_) => unchanged(pre, post) && step == Step::Silent,
    }
}

/// What reading tags gave for the `k`th path asked for.
pub open spec fn tags_at(outcome: Outcome, k: int) -> Option<TrackTags> {
    match outcome {
        Outcome::Resolved(t) => if 0 <= k < t@.len() {
            t@[k]
        } else {
            None
        },
        _ => None,
    }
}

/// `note` reports the whole queue `q`.
pub open spec fn reports_queue(note: Notification, q: Seq<TrackInfo>) -> bool {
    &&& note.event == EventKind::Queue
    &&& note.result matches Ok(CommandResponse::Queue(v)) && v@ == q
}

/// `note` reports that track `i` of `s` plays.
pub open spec fn playing_note(s: AudioState, i: int) -> Notification {
    Notification {
        event: EventKind::Play,
        result: Ok(CommandResponse::Play { index: i as usize, track: s.queue@[i] }),
    }
}

/// Settling `action` in state `pre`, after the device reported `outcome`,
/// leads to `post` and sends `note`.
pub open spec fn completed(
    pre: AudioState,
    action: Action,
    outcome: Outcome,
    post: AudioState,
    note: Notification,
) -> bool {
    match action {
        Action::Resolve(paths) => {
            let n = pre.queue@.len();
            &&& post.queue@.len() == n + paths@.len()
            &&& post.queue@.subrange(0, n as int) == pre.queue@
            &&& forall|k: int|
                0 <= k < paths@.len() ==> describes(
                    post.queue@[n + k],
                    (#[trigger] paths@[k])@,
                    n + k,
                    tags_at(outcome, k),
                )
            &&& post.current_index == pre.current_index
            &&& post.duration == pre.duration
            &&& post.looped == pre.looped
            &&& post.volume == pre.volume
            &&& post.advancing == pre.advancing
            &&& reports_queue(note, post.queue@)
        },
        Action::Load { index, track: _ } => if index < pre.queue@.len() {
            match outcome {
                Outcome::Failed(e) => unchanged(pre, post) && note == Notification {
                    event: EventKind::Play,
                    result: Err(e),
                },
                _ => {
                    &&& post.queue@ == pre.queue@
                    &&& post.current_index == index
                    &&& post.duration == Some(pre.queue@[index as int].duration)
                    &&& post.looped == pre.looped
                    &&& post.volume == pre.volume
                    &&& !post.advancing
                    &&& note == playing_note(pre, index as int)
                },
            }
        } else {
            unchanged(pre, post) && note == Notification {
                event: EventKind::Play,
                result: Err(AudioError::OutOfBoundsError),
            }
        },
        Action::Pause => {
            &&& post.queue@ == pre.queue@
            &&& post.current_index == pre.current_index
            &&& post.duration == pre.duration
            &&& post.looped == pre.looped
            &&& post.volume == pre.volume
            &&& !post.advancing
            &&& note.event == EventKind::Status
            &&& note.result matches Ok(CommandResponse::Status(s)) && s@ == "paused"@
        },
        Action::Resume => unchanged(pre, post) && note == if pre.queue@.len() > 0 {
            playing_note(pre, pre.current_index as int)
        } else {
            Notification { event: EventKind::Play, result: Err(AudioError::EmptyQueueError) }
        },
        Action::Seek(p) => unchanged(pre, post) && note == match outcome {
            Outcome::Failed(e) => Notification { event: EventKind::Position, result: Err(e) },
            Outcome::Position(q) => Notification {
                event: EventKind::Position,
                result: Ok(CommandResponse::Position(q)),
            },
            _ => Notification {
                event: EventKind::Position,
                result: Ok(CommandResponse::Position(p)),
            },
        },
        Action::SetVolume(v) => unchanged(pre, post) && note == Notification {
            event: EventKind::Volume,
            result: Ok(CommandResponse::Volume(v)),
        },
        Action::Stop => unchanged(pre, post) && reports_queue(note, pre.queue@),
    }
}

/// The command that the end of the current track calls for.
pub open spec fn advance_of(s: AudioState) -> AudioCommand {
    match next_target(s) {
        Some(j) => AudioCommand::Play(j as usize),
        None => AudioCommand::Pause,
    }
}

/// Looking at the playing track in state `pre`, with the device as `device` shows it
/// and `since_report_ms` milliseconds after the last position report, leads
/// to `post` and asks for `r`.
pub open spec fn progressed(
    pre: AudioState,
    device: DeviceStatus,
    since_report_ms: u64,
    post: AudioState,
    r: Progress,
) -> bool {
    let playing = !device.empty && !device.paused;
    let fire = playing && pre.ended(device) && !pre.advancing && pre.queue@.len() > 0;
    &&& post.queue@ == pre.queue@
    &&& post.current_index == pre.current_index
    &&& post.duration == pre.duration
    &&& post.looped == pre.looped
    &&& post.volume == pre.volume
    &&& post.advancing == (pre.advancing || fire)
    &&& r.advance == if fire {
        Some(advance_of(pre))
    } else {
        None
    }
    &&& r.report == if playing && since_report_ms >= REPORT_INTERVAL_MS {
        Some(
            Notification {
                event: EventKind::Position,
                result: Ok(CommandResponse::Position(device.position)),
            },
        )
    } else {
        None
    }
}

fn copy_tracks(v: &Vec<TrackInfo>) -> (r: Vec<TrackInfo>)
    ensures
        r@ == v@,
{
    let r = v.clone();
    assert(r@ =~= v@);
    r
}

fn tags_for(outcome: &Outcome, k: usize) -> (r: Option<TrackTags>)
    ensures
        r == tags_at(*outcome, k as int),
{
    match outcome {
        Outcome::Resolved(t) => if k < t.len() {
            match &t[k] {
                Some(tags) => Some(tags.clone()),
                None => None,
            }
        } else {
            None
        },
        _ => None,
    }
}

impl AudioState {
    /// A worker's state at start: nothing queued, not looping, full volume.
    pub fn new() -> (r: AudioState)
        ensures
            r.wf(),
            r.queue@.len() == 0,
            r.current_index == 0,
            r.duration is None,
            !r.looped,
            r.volume == FULL_VOLUME,
            !r.advancing,
    {
        AudioState {
            queue: Vec::new(),
            current_index: 0,
            duration: None,
            looped: false,
            volume: FULL_VOLUME,
            advancing: false,
        }
    }

    /// A copy of the queue and of the transport settings.
    pub fn snapshot(&self) -> (r: QueueSnapshot)
        ensures
            r.tracks@ == self.queue@,
            r.current_index == self.current_index,
            r.looped == self.looped,
            r.volume == self.volume,
    {
        QueueSnapshot {
            tracks: copy_tracks(&self.queue),
            current_index: self.current_index,
            looped: self.looped,
            volume: self.volume,
        }
    }

    fn load(&self, i: usize) -> (r: Step)
        requires
            i < self.queue@.len(),
        ensures
            r == load_of(*self, i as int),
    {
        Step::Perform(Action::Load { index: i, track: self.queue[i].clone() })
    }

    /// Decides what a command does: the state changes that need no device,
    /// and the work that the device has to do first.
    pub fn handle_audio_command(&mut self, command: AudioCommand, device: DeviceStatus) -> (r: Step)
        requires
            old(self).wf(),
        ensures
            final(self).wf(),
            handled(*old(self), command, device, *final(self), r),
    {
        match command {
            AudioCommand::Queue(paths) => Step::Perform(Action::Resolve(paths)),
            AudioCommand::Clear => {
                self.queue.clear();
                self.current_index = 0;
                self.advancing = false;
                Step::Perform(Action::Stop)
            },
            AudioCommand::Play(index) => {
                if index < self.queue.len() {
                    self.load(index)
                } else {
                    Step::Emit(
                        Notification { event: EventKind::Play, result: Err(AudioError::OutOfBoundsError) },
                    )
                }
            },
            AudioCommand::Pause => Step::Perform(Action::Pause),
            AudioCommand::Resume => {
                if self.queue.len() == 0 {
                    Step::Emit(
                        Notification { event: EventKind::Play, result: Err(AudioError::EmptyQueueError) },
                    )
                } else if device.empty {
                    self.load(0)
                } else {
                    Step::Perform(Action::Resume)
                }
            },
            AudioCommand::Prev => {
                if self.queue.len() == 0 {
                    Step::Emit(
                        Notification { event: EventKind::Play, result: Err(AudioError::EmptyQueueError) },
                    )
                } else if self.current_index > 0 && device.position < RESTART_THRESHOLD_SECS {
                    self.load(self.current_index - 1)
                } else {
                    self.load(self.current_index)
                }
            },
            AudioCommand::Next => {
                if self.queue.len() == 0 {
                    Step::Emit(
                        Notification { event: EventKind::Play, result: Err(AudioError::EmptyQueueError) },
                    )
                } else if self.current_index + 1 < self.queue.len() {
                    self.load(self.current_index + 1)
                } else if self.looped {
                    self.load(0)
                } else {
                    Step::Emit(
                        Notification { event: EventKind::Play, result: Err(AudioError::OutOfBoundsError) },
                    )
                }
            },
            AudioCommand::SetPosition(p) => Step::Perform(Action::Seek(p)),
            AudioCommand::SetLooped(b) => {
                self.looped = b;
                Step::Emit(
                    Notification { event: EventKind::Looped, result: Ok(CommandResponse::Looped(b)) },
                )
            },
            AudioCommand::SetVolume(v) => {
                self.volume = v;
                Step::Perform(Action::SetVolume(v))
            },
            AudioCommand::QueryQueue(reply) => {
                // A caller that stopped waiting for the answer is no concern of the worker.
                let _ = send_on(&reply, self.snapshot());
                Step::Silent
            },
        }
    }

    /// Settles an action once the device, or the reader of tags, has done it.
    pub fn complete(&mut self, action: Action, outcome: Outcome) -> (r: Notification)
        requires
            old(self).wf(),
        ensures
            final(self).wf(),
            completed(*old(self), action, outcome, *final(self), r),
    {
        match action {
            Action::Resolve(paths) => {
                let ghost before = self.queue@;
                let base = self.queue.len();
                let n = paths.len();
                let mut k: usize = 0;
                while k < n
                    invariant
                        n == paths@.len(),
                        k <= n,
                        base == before.len(),
                        self.queue@.len() == base + k,
                        self.queue@.subrange(0, base as int) == before,
                        forall|j: int|
                            0 <= j < k ==> describes(
                                self.queue@[base + j],
                                (#[trigger] paths@[j])@,
                                base + j,
                                tags_at(outcome, j),
                            ),
                        self.current_index == old(self).current_index,
                        self.duration == old(self).duration,
                        self.looped == old(self).looped,
                        self.volume == old(self).volume,
                        self.advancing == old(self).advancing,
                        before == old(self).queue@,
                        old(self).wf(),
                    decreases n - k,
                {
                    let tags = tags_for(&outcome, k);
                    let info = TrackInfo::from_tags(paths[k].as_str(), self.queue.len(), tags);
                    let ghost mid = self.queue@;
                    self.queue.push(info);
                    assert(self.queue@.subrange(0, base as int) =~= mid.subrange(0, base as int));
                    k = k + 1;
                }
                Notification {
                    event: EventKind::Queue,
                    result: Ok(CommandResponse::Queue(copy_tracks(&self.queue))),
                }
            },
            Action::Load { index, track: _ } => {
                if index < self.queue.len() {
                    match outcome {
                        Outcome::Failed(e) => Notification { event: EventKind::Play, result: Err(e) },
                        _ => {
                            self.current_index = index;
                            self.duration = Some(self.queue[index].duration);
                            self.advancing = false;
                            Notification {
                                event: EventKind::Play,
                                result: Ok(
                                    CommandResponse::Play { index, track: self.queue[index].clone() },
                                ),
                            }
                        },
                    }
                } else {
                    Notification { event: EventKind::Play, result: Err(AudioError::OutOfBoundsError) }
                }
            },
            Action::Pause => {
                self.advancing = false;
                Notification {
                    event: EventKind::Status,
                    result: Ok(CommandResponse::Status("paused".to_owned())),
                }
            },
            Action::Resume => {
                if self.queue.len() > 0 {
                    Notification {
                        event: EventKind::Play,
                        result: Ok(
                            CommandResponse::Play {
                                index: self.current_index,
                                track: self.queue[self.current_index].clone(),
                            },
                        ),
                    }
                } else {
                    Notification { event: EventKind::Play, result: Err(AudioError::EmptyQueueError) }
                }
            },
            Action::Seek(p) => match outcome {
                Outcome::Failed(e) => Notification { event: EventKind::Position, result: Err(e) },
                Outcome::Position(q) => Notification {
                    event: EventKind::Position,
                    result: Ok(CommandResponse::Position(q)),
                },
                _ => Notification {
                    event: EventKind::Position,
                    result: Ok(CommandResponse::Position(p)),
                },
            },
            Action::SetVolume(v) => Notification {
                event: EventKind::Volume,
                result: Ok(CommandResponse::Volume(v)),
            },
            Action::Stop => Notification {
                event: EventKind::Queue,
                result: Ok(CommandResponse::Queue(copy_tracks(&self.queue))),
            },
        }
    }

    /// What the worker does on every tick: at the end of the current
    /// track it posts the advance to itself once, and at most every
    /// `REPORT_INTERVAL_MS` it reports the position. Both only while a track
    /// is loaded and not paused.
    pub fn track_progress(&mut self, device: DeviceStatus, since_report_ms: u64) -> (r: Progress)
        requires
            old(self).wf(),
        ensures
            final(self).wf(),
            progressed(*old(self), device, since_report_ms, *final(self), r),
    {
        let playing = !device.empty && !device.paused;
        let end = match self.duration {
            Some(d) => d,
            None => 0,
        };
        let advance = if playing && device.position >= end && !self.advancing && self.queue.len() > 0 {
            self.advancing = true;
            if self.current_index + 1 < self.queue.len() {
                Some(AudioCommand::Play(self.current_index + 1))
            } else if self.looped {
                Some(AudioCommand::Play(0))
            } else {
                Some(AudioCommand::Pause)
            }
        } else {
            None
        };
        let report = if playing && since_report_ms >= REPORT_INTERVAL_MS {
            Some(
                Notification {
                    event: EventKind::Position,
                    result: Ok(CommandResponse::Position(device.position)),
                },
            )
        } else {
            None
        };
        Progress { advance, report }
    }
}

} // verus!
