use vstd::prelude::*;

verus! {

/// Everything that can go wrong in the facade, reported in-band so a caller
/// can retry, log or fall back instead of the process aborting.
#[derive(Clone, Copy, Debug, PartialEq, Eq, Structural)]
pub enum AudioError {
    /// The named file could not be opened or read.
    IoError,
    /// The file was read, but its content is not decodable audio.
    DecodeError,
    /// No default output device is available, or it failed to initialise.
    DeviceError,
    /// A playback queue could not be created.
    SinkCreationError,
}

impl AudioError {
    /// A short human-readable description, naming the step that failed.
    pub fn message(&self) -> (r: &'static str)
        ensures
            r@ == self.spec_message(),
    {
        match self {
            AudioError::IoError => "failed to open file",
            AudioError::DecodeError => "Failed to decode file",
            AudioError::DeviceError => "Creating OutputStream Failed",
            AudioError::SinkCreationError => "Sink creation failed",
        }
    }

    /// The description that `message` returns for each failure.
    pub open spec fn spec_message(self) -> Seq<char> {
        match self {
            AudioError::IoError => "failed to open file"@,
            AudioError::DecodeError => "Failed to decode file"@,
            AudioError::DeviceError => "Creating OutputStream Failed"@,
            AudioError::SinkCreationError => "Sink creation failed"@,
        }
    }
}

} // verus!
