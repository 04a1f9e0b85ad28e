use vstd::prelude::*;
use crate::command::{AudioCommand, MediaEvent, QueueSnapshot, media_command, media_command_of};
use crate::error::AudioError;
use std::sync::mpsc::Sender;

verus! {

/// The sending end of a std channel, carried through as it is.
#[verifier::external_type_specification]
#[verifier::external_body]
#[verifier::reject_recursive_types(T)]
pub struct ExSender<T>(Sender<T>);

/// Relies on std::sync::mpsc::Sender::send: true when the value went into the
/// channel; false when the receiving end is gone.
#[verifier::external_body]
pub(crate) fn send_on<T>(sender: &Sender<T>, value: T) -> (sent: bool) {
    sender.send(value).is_ok()
}

/// What a caller is told after handing a command to the worker: the only
/// failure is a worker that is gone.
pub open spec fn delivery_result(sent: bool) -> Result<(), AudioError> {
    if sent {
        Ok(())
    } else {
        Err(AudioError::LockError)
    }
}

pub fn delivery(sent: bool) -> (r: Result<(), AudioError>)
    ensures
        r == delivery_result(sent),
{
    if sent {
        Ok(())
    } else {
        Err(AudioError::LockError)
    }
}

/// The handle that the user interface and the media controls hold: each
/// method posts one command to the playback worker.
pub struct AudioPlayer {
    pub sender: Sender<AudioCommand>,
}

impl AudioPlayer {
    /// A handle that posts on `sender`; the worker holds the receiving end.
    pub fn new(sender: Sender<AudioCommand>) -> (r: AudioPlayer)
        ensures
            r.sender == sender,
    {
        AudioPlayer { sender }
    }

    fn post(&self, command: AudioCommand) -> (r: Result<(), AudioError>)
        ensures
            r is Ok || r == Err::<(), AudioError>(AudioError::LockError),
    {
        let sent = send_on(&self.sender, command);
        delivery(sent)
    }

    pub fn add_queue(&self, file_paths: Vec<String>) -> (r: Result<(), AudioError>)
        ensures
            r is Ok || r == Err::<(), AudioError>(AudioError::LockError),
    {
        self.post(AudioCommand::Queue(file_paths))
    }

    pub fn clear_queue(&self) -> (r: Result<(), AudioError>)
        ensures
            r is Ok || r == Err::<(), AudioError>(AudioError::LockError),
    {
        self.post(AudioCommand::Clear)
    }

    pub fn play(&self, index: usize) -> (r: Result<(), AudioError>)
        ensures
            r is Ok || r == Err::<(), AudioError>(AudioError::LockError),
    {
        self.post(AudioCommand::Play(index))
    }

    pub fn pause(&self) -> (r: Result<(), AudioError>)
        ensures
            r is Ok || r == Err::<(), AudioError>(AudioError::LockError),
    {
        self.post(AudioCommand::Pause)
    }

    pub fn resume(&self) -> (r: Result<(), AudioError>)
        ensures
            r is Ok || r == Err::<(), AudioError>(AudioError::LockError),
    {
        self.post(AudioCommand::Resume)
    }

    pub fn next(&self) -> (r: Result<(), AudioError>)
        ensures
            r is Ok || r == Err::<(), AudioError>(AudioError::LockError),
    {
        self.post(AudioCommand::Next)
    }

    pub fn prev(&self) -> (r: Result<(), AudioError>)
        ensures
            r is Ok || r == Err::<(), AudioError>(AudioError::LockError),
    {
        self.post(AudioCommand::Prev)
    }

    pub fn set_position(&self, position: u64) -> (r: Result<(), AudioError>)
        ensures
            r is Ok || r == Err::<(), AudioError>(AudioError::LockError),
    {
        self.post(AudioCommand::SetPosition(position))
    }

    pub fn set_looped(&self, looped: bool) -> (r: Result<(), AudioError>)
        ensures
            r is Ok || r == Err::<(), AudioError>(AudioError::LockError),
    {
        self.post(AudioCommand::SetLooped(looped))
    }

    /// `volume` is in percent of the source level.
    pub fn set_volume(&self, volume: u32) -> (r: Result<(), AudioError>)
        ensures
            r is Ok || r == Err::<(), AudioError>(AudioError::LockError),
    {
        self.post(AudioCommand::SetVolume(volume))
    }

    /// Asks the worker for a snapshot of the queue; it answers on `reply`.
    pub fn query_queue(&self, reply: Sender<QueueSnapshot>) -> (r: Result<(), AudioError>)
        ensures
            r is Ok || r == Err::<(), AudioError>(AudioError::LockError),
    {
        self.post(AudioCommand::QueryQueue(reply))
    }

    /// Posts the command that a media-control event stands for; an event that
    /// stands for none posts nothing and succeeds.
    pub fn handle_media_event(event: MediaEvent, sender: &Sender<AudioCommand>) -> (r: Result<(), AudioError>)
        ensures
            media_command_of(event) is None ==> r is Ok,
            r is Ok || r == Err::<(), AudioError>(AudioError::LockError),
    {
        match media_command(event) {
            Some(command) => {
                let sent = send_on(sender, command);
                delivery(sent)
            },
            None => Ok(()),
        }
    }
}

} // verus!
