//! The error conditions of the session and of its collaborators.
use vstd::prelude::*;

verus! {

/// What can go wrong while a session is started, run or stopped.
#[derive(Clone, Copy, Debug, PartialEq, Eq, Structural)]
pub enum SessionError {
    /// No capture device was found.
    DeviceUnavailable,
    /// The model artifact could not be downloaded or stored.
    ModelAcquisitionFailed,
    /// The model artifact could not be loaded into an engine.
    EngineLoadFailed,
    /// The model identifier names no known model.
    InvalidModelIdentifier,
    /// `start` was asked of a session that is recording.
    AlreadyRecording,
    /// `stop` was asked of a session that is idle.
    NotRecording,
    /// One utterance could not be transcribed.
    InferenceFailed,
    /// A lock was found poisoned.
    LockPoisoned,
}

impl SessionError {
    /// The text of the message, character by character.
    pub open spec fn message_spec(self) -> Seq<char> {
        match self {
            SessionError::DeviceUnavailable => "No microphone found"@,
            SessionError::ModelAcquisitionFailed => "Failed to download model"@,
            SessionError::EngineLoadFailed => "Failed to load Whisper model"@,
            SessionError::InvalidModelIdentifier => "Unknown model type"@,
            SessionError::AlreadyRecording => "Already recording"@,
            SessionError::NotRecording => "Not recording"@,
            SessionError::InferenceFailed => "Transcription failed"@,
            SessionError::LockPoisoned => "Failed to lock state"@,
        }
    }

    /// A short message for the user.
    pub fn message(&self) -> (text: &'static str)
        ensures
            text@ == self.message_spec(),
    {
        match self {
            SessionError::DeviceUnavailable => "No microphone found",
            SessionError::ModelAcquisitionFailed => "Failed to download model",
            SessionError::EngineLoadFailed => "Failed to load Whisper model",
            SessionError::InvalidModelIdentifier => "Unknown model type",
            SessionError::AlreadyRecording => "Already recording",
            SessionError::NotRecording => "Not recording",
            SessionError::InferenceFailed => "Transcription failed",
            SessionError::LockPoisoned => "Failed to lock state",
        }
    }

    /// Whether the session goes on after this error: only the failure of
    /// a single utterance is of that kind.
    pub fn is_recoverable(&self) -> (recoverable: bool)
        ensures
            recoverable == (*self == SessionError::InferenceFailed),
    {
        match self {
            SessionError::InferenceFailed => true,
            _ => false,
        }
    }
}

} // verus!
