use vstd::prelude::*;

use crate::encoder::FRAMES;
use crate::error::{ExitState, TranscodeError};

verus! {

/// Where one run of the encoder process stands.
#[derive(Debug)]
pub enum EncodeSession {
    /// The process is to be started.
    Spawning,
    /// The process runs and `written` frames have gone to its input.
    Writing { written: i32 },
    /// Every frame is written: the input is to be closed and the exit awaited.
    Waiting,
    /// The run is over, with its outcome.
    Finished(Result<(), TranscodeError>),
}

/// What the outside world reports to a session.
#[derive(Debug)]
pub enum EncodeEvent {
    /// The process started.
    Spawned,
    /// The process could not be started.
    SpawnFailed { detail: String },
    /// One whole frame was written to the process's input.
    FrameWritten,
    /// Writing to the process's input failed.
    WriteFailed { detail: String },
    /// The process exited.
    Exited { status: ExitState },
    /// Waiting for the process failed.
    WaitFailed { detail: String },
}

/// What the caller is to do next.
#[derive(Debug, Clone, Copy, PartialEq, Eq, Structural)]
pub enum EncodeAction {
    /// Start the encoder process.
    Spawn,
    /// Write the whole buffer to the process's input once more.
    WriteFrame,
    /// Close the process's input and wait for it to exit.
    CloseAndWait,
    /// The run is over: release the process; the session holds the outcome.
    Finish,
}

/// The action that a session asks for while it stands where it is.
pub open spec fn pending_action(s: EncodeSession) -> EncodeAction {
    match s {
        EncodeSession::Spawning => EncodeAction::Spawn,
        EncodeSession::Writing { .. } => EncodeAction::WriteFrame,
        EncodeSession::Waiting => EncodeAction::CloseAndWait,
        EncodeSession::Finished(_) => EncodeAction::Finish,
    }
}

/// One step of an encoder run. An event that does not belong where the
/// session stands leaves it where it is.
pub open spec fn encode_step(s: EncodeSession, e: EncodeEvent) -> EncodeSession {
    match (s, e) {
        (EncodeSession::Spawning, EncodeEvent::Spawned) => EncodeSession::Writing { written: 0 },
        (EncodeSession::Spawning, EncodeEvent::SpawnFailed { detail }) => EncodeSession::Finished(
            Err(TranscodeError::SpawnError { detail }),
        ),
        (EncodeSession::Writing { written }, EncodeEvent::FrameWritten) => if written + 1
            < FRAMES {
            EncodeSession::Writing { written: (written + 1) as i32 }
        } else {
            EncodeSession::Waiting
        },
        (EncodeSession::Writing { .. }, EncodeEvent::WriteFailed { detail }) => EncodeSession::Finished(
            Err(TranscodeError::StreamWriteError { detail }),
        ),
        (EncodeSession::Waiting, EncodeEvent::Exited { status }) => EncodeSession::Finished(
            if status.is_success() {
                Ok(())
            } else {
                Err(TranscodeError::EncodeProcessError { status })
            },
        ),
        (EncodeSession::Waiting, EncodeEvent::WaitFailed { detail }) => EncodeSession::Finished(
            Err(TranscodeError::WaitError { detail }),
        ),
        (s, _) => s,
    }
}

impl EncodeSession {
    /// A run that has not started.
    pub fn new() -> (r: EncodeSession)
        ensures
            r == EncodeSession::Spawning,
    {
        EncodeSession::Spawning
    }

    /// What the caller is to do next.
    pub fn action(&self) -> (r: EncodeAction)
        ensures
            r == pending_action(*self),
    {
        match self {
            EncodeSession::Spawning => EncodeAction::Spawn,
            EncodeSession::Writing { .. } => EncodeAction::WriteFrame,
            EncodeSession::Waiting => EncodeAction::CloseAndWait,
            EncodeSession::Finished(_) => EncodeAction::Finish,
        }
    }

    /// Takes in what happened and returns what to do next: start the
    /// process, write each of the `FRAMES` frames, close the input and wait,
    /// and end on the first failure or on the exit.
    pub fn step(&mut self, event: EncodeEvent) -> (r: EncodeAction)
        ensures
            *final(self) == encode_step(*old(self), event),
            r == pending_action(*final(self)),
    {
        let mut cur = EncodeSession::Spawning;
        core::mem::swap(self, &mut cur);
        let next = match (cur, event) {
            (EncodeSession::Spawning, EncodeEvent::Spawned) => EncodeSession::Writing { written: 0 },
            (EncodeSession::Spawning, EncodeEvent::SpawnFailed { detail }) => {
                EncodeSession::Finished(Err(TranscodeError::SpawnError { detail }))
            },
            (EncodeSession::Writing { written }, EncodeEvent::FrameWritten) => {
                if written < FRAMES - 1 {
                    EncodeSession::Writing { written: written + 1 }
                } else {
                    EncodeSession::Waiting
                }
            },
            (EncodeSession::Writing { written }, EncodeEvent::WriteFailed { detail }) => {
                EncodeSession::Finished(Err(TranscodeError::StreamWriteError { detail }))
            },
            (EncodeSession::Waiting, EncodeEvent::Exited { status }) => {
                if status.success() {
                    EncodeSession::Finished(Ok(()))
                } else {
                    EncodeSession::Finished(Err(TranscodeError::EncodeProcessError { status }))
                }
            },
            (EncodeSession::Waiting, EncodeEvent::WaitFailed { detail }) => {
                EncodeSession::Finished(Err(TranscodeError::WaitError { detail }))
            },
            (s, _) => s,
        };
        *self = next;
        self.action()
    }

    /// The outcome of a finished run; `None` while it goes on.
    pub fn into_outcome(self) -> (r: Option<Result<(), TranscodeError>>)
        ensures
            match self {
                EncodeSession::Finished(o) => r == Some(o),
                _ => r is None,
            },
    {
        match self {
            EncodeSession::Finished(o) => Some(o),
            _ => None,
        }
    }
}

/// A run that does not fail writes every frame: a session reaches the wait
/// only from its last frame, after `FRAMES` writes from the start.
pub proof fn lemma_frames_written(k: i32)
    requires
        0 <= k,
    ensures
        encode_step(EncodeSession::Writing { written: k }, EncodeEvent::FrameWritten)
            == EncodeSession::Waiting <==> k >= FRAMES - 1,
        encode_step(
            encode_step(
                encode_step(EncodeSession::Spawning, EncodeEvent::Spawned),
                EncodeEvent::FrameWritten,
            ),
            EncodeEvent::FrameWritten,
        ) == EncodeSession::Waiting,
{
}

} // verus!
