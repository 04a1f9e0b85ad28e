use vstd::prelude::*;

verus! {

/// What can go wrong while the engine talks to the device, the queue or the
/// user interface.
#[derive(Debug, Clone, PartialEq, Eq)]
pub enum AudioError {
    StreamError,
    SinkError,
    IoError(String),
    DecoderError,
    SeekError,
    LockError,
    EmptyQueueError,
    OutOfBoundsError,
    EmitError,
    Unknown(String),
}

/// The text shown to the user for an error.
pub open spec fn message_of(e: AudioError) -> Seq<char> {
    match e {
        AudioError::StreamError => "Failed to create audio output stream"@,
        AudioError::SinkError => "Failed to create audio sink"@,
        AudioError::IoError(m) => "I/O error: "@ + m@,
        AudioError::DecoderError => "Failed to decode audio file"@,
        AudioError::SeekError => "Failed to seek to position"@,
        AudioError::LockError => "Mutex lock error"@,
        AudioError::EmptyQueueError => "Queue is empty"@,
        AudioError::OutOfBoundsError => "Index out of bounds"@,
        AudioError::EmitError => "Failed to emit event"@,
        AudioError::Unknown(m) => "Unknown error: "@ + m@,
    }
}

/// Relies on String::push_str: the text of `tail` is appended to a copy of `head`.
#[verifier::external_body]
fn joined(head: &str, tail: &str) -> (r: String)
    ensures
        r@ == head@ + tail@,
{
    let mut r = head.to_owned();
    r.push_str(tail);
    r
}

impl AudioError {
    /// The text shown to the user for this error.
    pub fn message(&self) -> (r: String)
        ensures
            r@ == message_of(*self),
    {
        match self {
            AudioError::StreamError => "Failed to create audio output stream".to_owned(),
            AudioError::SinkError => "Failed to create audio sink".to_owned(),
            AudioError::IoError(m) => joined("I/O error: ", m.as_str()),
            AudioError::DecoderError => "Failed to decode audio file".to_owned(),
            AudioError::SeekError => "Failed to seek to position".to_owned(),
            AudioError::LockError => "Mutex lock error".to_owned(),
            AudioError::EmptyQueueError => "Queue is empty".to_owned(),
            AudioError::OutOfBoundsError => "Index out of bounds".to_owned(),
            AudioError::EmitError => "Failed to emit event".to_owned(),
            AudioError::Unknown(m) => joined("Unknown error: ", m.as_str()),
        }
    }
}

} // verus!
