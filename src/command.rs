use vstd::prelude::*;
use crate::error::{AudioError, message_of};
use crate::track::TrackInfo;
use std::sync::mpsc::Sender;

verus! {

/// What the queue and transport looked like when a query was answered.
#[derive(Debug, Clone, PartialEq, Eq)]
pub struct QueueSnapshot {
    pub tracks: Vec<TrackInfo>,
    pub current_index: usize,
    pub looped: bool,
    /// Volume in percent of the source level.
    pub volume: u32,
}

/// A transport command: the only way to change the queue or the transport state.
#[derive(Debug)]
pub enum AudioCommand {
    /// Append the files at these paths to the queue, in this order.
    Queue(Vec<String>),
    Clear,
    Play(usize),
    Pause,
    Resume,
    Prev,
    Next,
    /// Seek to this many seconds into the current track.
    SetPosition(u64),
    SetLooped(bool),
    /// Volume in percent of the source level.
    SetVolume(u32),
    /// Answer with a snapshot of the queue on this channel.
    QueryQueue(Sender<QueueSnapshot>),
}

/// A transport request that the operating system's media controls deliver.
#[derive(Debug, Clone, Copy, PartialEq, Eq)]
pub enum MediaEvent {
    Play,
    Pause,
    Toggle,
    Next,
    Previous,
    Stop,
    /// Move to this many seconds into the current track.
    SetPosition(u64),
    /// Volume in percent of the source level.
    SetVolume(u32),
    /// A request that the engine does not act on.
    Other,
}

/// The command that a media-control event stands for, if any.
pub open spec fn media_command_of(event: MediaEvent) -> Option<AudioCommand> {
    match event {
        MediaEvent::Play => Some(AudioCommand::Resume),
        MediaEvent::Pause => Some(AudioCommand::Pause),
        MediaEvent::Next => Some(AudioCommand::Next),
        MediaEvent::Previous => Some(AudioCommand::Prev),
        MediaEvent::Stop => Some(AudioCommand::Pause),
        MediaEvent::SetPosition(p) => Some(AudioCommand::SetPosition(p)),
        MediaEvent::SetVolume(v) => Some(AudioCommand::SetVolume(v)),
        MediaEvent::Toggle | MediaEvent::Other => None,
    }
}

/// Maps a media-control event to the command it stands for.
pub fn media_command(event: MediaEvent) -> (r: Option<AudioCommand>)
    ensures
        r == media_command_of(event),
{
    match event {
        MediaEvent::Play => Some(AudioCommand::Resume),
        MediaEvent::Pause => Some(AudioCommand::Pause),
        MediaEvent::Next => Some(AudioCommand::Next),
        MediaEvent::Previous => Some(AudioCommand::Prev),
        MediaEvent::Stop => Some(AudioCommand::Pause),
        MediaEvent::SetPosition(p) => Some(AudioCommand::SetPosition(p)),
        MediaEvent::SetVolume(v) => Some(AudioCommand::SetVolume(v)),
        MediaEvent::Toggle | MediaEvent::Other => None,
    }
}

/// The payload of a successful notification.
#[derive(Debug, Clone, PartialEq, Eq)]
pub enum CommandResponse {
    Queue(Vec<TrackInfo>),
    Play { index: usize, track: TrackInfo },
    Status(String),
    Position(u64),
    Looped(bool),
    /// Volume in percent of the source level.
    Volume(u32),
}

/// The topic a notification is sent under.
#[derive(Debug, Clone, Copy, PartialEq, Eq)]
pub enum EventKind {
    Queue,
    Play,
    Status,
    Position,
    Looped,
    Volume,
}

pub open spec fn event_name_of(kind: EventKind) -> Seq<char> {
    match kind {
        EventKind::Queue => "queue"@,
        EventKind::Play => "play"@,
        EventKind::Status => "status"@,
        EventKind::Position => "position"@,
        EventKind::Looped => "looped"@,
        EventKind::Volume => "volume"@,
    }
}

impl EventKind {
    /// The topic's name, as the user interface listens for it.
    pub fn name(&self) -> (r: &'static str)
        ensures
            r@ == event_name_of(*self),
    {
        match self {
            EventKind::Queue => "queue",
            EventKind::Play => "play",
            EventKind::Status => "status",
            EventKind::Position => "position",
            EventKind::Looped => "looped",
            EventKind::Volume => "volume",
        }
    }
}

/// What the engine tells the user interface after a command or a tick.
#[derive(Debug, PartialEq, Eq)]
pub struct Notification {
    pub event: EventKind,
    pub result: Result<CommandResponse, AudioError>,
}

/// The envelope a notification travels in: exactly one of `data` and `error`
/// is present, as `success` says.
#[derive(Debug, Clone, PartialEq, Eq)]
pub struct Callback {
    pub success: bool,
    pub data: Option<CommandResponse>,
    pub error: Option<String>,
}

impl Notification {
    /// Puts the outcome into the envelope the user interface reads.
    pub fn callback(self) -> (r: Callback)
        ensures
            r.success == self.result is Ok,
            self.result is Ok ==> r.data == Some(self.result->Ok_0) && r.error is None,
            self.result is Err ==> r.data is None && r.error is Some
                && r.error->Some_0@ == message_of(self.result->Err_0),
    {
        match self.result {
            Ok(data) => Callback { success: true, data: Some(data), error: None },
            Err(e) => Callback { success: false, data: None, error: Some(e.message()) },
        }
    }
}

} // verus!
