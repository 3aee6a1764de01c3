//! The failure kinds that the recorder reports.

use vstd::prelude::*;

verus! {

/// What went wrong with a request.
#[derive(Clone, Copy, Debug, PartialEq, Eq, Structural)]
pub enum RecordingError {
    /// The capture target or the camera label is not usable.
    ConfigurationError,
    /// A capture source could not be opened.
    DeviceUnavailable,
    /// The encoder process did not come up.
    EncoderLaunchFailure,
    /// The encoder process died while it was capturing or flushing.
    EncoderRuntimeFailure,
    /// The file system refused an operation.
    IoFailure,
    /// A render could not be completed.
    RenderFailure,
    /// A session already occupies the recorder.
    AlreadyRecording,
    /// There is no session in the state that the request needs.
    NotInProgress,
}

impl RecordingError {
    /// The text shown to the user for this failure.
    pub open spec fn spec_message(self) -> Seq<char> {
        match self {
            RecordingError::ConfigurationError => "Invalid recording configuration"@,
            RecordingError::DeviceUnavailable => "Capture device unavailable"@,
            RecordingError::EncoderLaunchFailure => "Encoder failed to start"@,
            RecordingError::EncoderRuntimeFailure => "Encoder stopped unexpectedly"@,
            RecordingError::IoFailure => "File system operation failed"@,
            RecordingError::RenderFailure => "Render failed"@,
            RecordingError::AlreadyRecording => "Recording already in progress"@,
            RecordingError::NotInProgress => "Recording not in progress"@,
        }
    }

    pub fn message(&self) -> (text: String)
        ensures
            text@ == self.spec_message(),
    {
        match self {
            RecordingError::ConfigurationError => String::from_str("Invalid recording configuration"),
            RecordingError::DeviceUnavailable => String::from_str("Capture device unavailable"),
            RecordingError::EncoderLaunchFailure => String::from_str("Encoder failed to start"),
            RecordingError::EncoderRuntimeFailure => String::from_str("Encoder stopped unexpectedly"),
            RecordingError::IoFailure => String::from_str("File system operation failed"),
            RecordingError::RenderFailure => String::from_str("Render failed"),
            RecordingError::AlreadyRecording => String::from_str("Recording already in progress"),
            RecordingError::NotInProgress => String::from_str("Recording not in progress"),
        }
    }
}

} // verus!
