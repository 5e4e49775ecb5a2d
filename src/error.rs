use vstd::prelude::*;

verus! {

/// How the encoder process ended.
#[derive(Debug, Clone, Copy, PartialEq, Eq, Structural)]
pub enum ExitState {
    /// It exited with the given code.
    Exited(u32),
    /// A signal with the given number ended it.
    Signaled(u8),
    /// An exit status that neither of the above describes.
    Other(i32),
    /// It ended, but its status could not be had.
    Undetermined,
}

impl ExitState {
    /// The process succeeded exactly when it exited with code zero.
    pub open spec fn is_success(self) -> bool {
        self == ExitState::Exited(0)
    }

    pub fn success(&self) -> (r: bool)
        ensures
            r == self.is_success(),
    {
        match self {
            ExitState::Exited(code) => *code == 0,
            _ => false,
        }
    }
}

/// What can go wrong in one transcode.
#[derive(Debug, Clone, PartialEq, Eq)]
pub enum TranscodeError {
    /// The decoder returned a non-zero status.
    DecodeError { code: i64 },
    /// The decoder handed back a buffer whose geometry does not fit its length.
    BufferLayoutError { len: usize },
    /// The channel byte width has no pixel format.
    UnsupportedFormatError { cbytes: usize },
    /// The encoder process could not be started.
    SpawnError { detail: String },
    /// Writing a frame to the encoder failed.
    StreamWriteError { detail: String },
    /// Waiting for the encoder to exit failed.
    WaitError { detail: String },
    /// The encoder ran and reported failure.
    EncodeProcessError { status: ExitState },
}

impl TranscodeError {
    /// Only an unsupported format is fatal: another attempt would meet the
    /// same buffer and the same format.
    pub open spec fn is_retryable_spec(&self) -> bool {
        !(self is UnsupportedFormatError)
    }

    pub fn is_retryable(&self) -> (r: bool)
        ensures
            r == self.is_retryable_spec(),
    {
        match self {
            TranscodeError::UnsupportedFormatError { .. } => false,
            _ => true,
        }
    }
}

} // verus!
