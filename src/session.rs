//! The life of a debugger session: created, ready once the handshake attached
//! to the remote target, failed once a stream closed, closed once terminated.

use crate::error::LoaderError;
use vstd::prelude::*;

verus! {

/// Where a session stands.
#[derive(Debug, Clone, Copy, PartialEq, Eq, Structural)]
pub enum SessionPhase {
    /// Spawned; the handshake is under way.
    Created,
    /// Attached to the remote target; requests may be made.
    Ready,
    /// A stream closed or a pipe broke; every further request fails.
    Failed,
    /// Terminated.
    Closed,
}

/// What a request made in a phase meets: the live phases let it through, a
/// failed session reports that the process went away, a closed one a broken pipe.
pub open spec fn request_gate(p: SessionPhase) -> Result<(), LoaderError> {
    match p {
        SessionPhase::Created => Ok(()),
        SessionPhase::Ready => Ok(()),
        SessionPhase::Failed => Err(LoaderError::ProcessExitedUnexpectedly),
        SessionPhase::Closed => Err(LoaderError::PipeIoFailure),
    }
}

/// The phase is one in which the process is taken to be alive.
pub open spec fn is_live(p: SessionPhase) -> bool {
    p == SessionPhase::Created || p == SessionPhase::Ready
}

/// The phase after the handshake, from the phase during it and the attach
/// request's outcome.
pub open spec fn handshake_phase(p: SessionPhase, attach_reply: Result<Vec<String>, LoaderError>) -> SessionPhase {
    match p {
        SessionPhase::Created => match attach_reply {
            Ok(lines) => if lines@.len() > 0 {
                SessionPhase::Ready
            } else {
                SessionPhase::Failed
            },
            Err(_) => SessionPhase::Failed,
        },
        _ => p,
    }
}

/// What ending the handshake reports.
pub open spec fn handshake_result(p: SessionPhase, attach_reply: Result<Vec<String>, LoaderError>) -> Result<(), LoaderError> {
    match p {
        SessionPhase::Created => match attach_reply {
            Ok(lines) => if lines@.len() > 0 {
                Ok(())
            } else {
                Err(LoaderError::HandshakeTimeout)
            },
            Err(e) => Err(e),
        },
        SessionPhase::Ready => Ok(()),
        SessionPhase::Failed => Err(LoaderError::HandshakeTimeout),
        SessionPhase::Closed => Err(LoaderError::PipeIoFailure),
    }
}

impl SessionPhase {
    /// Whether a request may be made now; the error says why not.
    pub fn check_request(&self) -> (r: Result<(), LoaderError>)
        ensures
            r == request_gate(*self),
    {
        match self {
            SessionPhase::Created => Ok(()),
            SessionPhase::Ready => Ok(()),
            SessionPhase::Failed => Err(LoaderError::ProcessExitedUnexpectedly),
            SessionPhase::Closed => Err(LoaderError::PipeIoFailure),
        }
    }

    /// Records how a reply collection ended. A closed stream means the
    /// process is going away: a live session fails, which the next request
    /// reports; the reply itself is still handed over.
    pub fn record_reply(&mut self, stream_closed: bool)
        ensures
            *final(self) == (if stream_closed && is_live(*old(self)) {
                SessionPhase::Failed
            } else {
                *old(self)
            }),
    {
        if stream_closed && (*self == SessionPhase::Created || *self == SessionPhase::Ready) {
            *self = SessionPhase::Failed;
        }
    }

    /// Records a write to the debugger's input that failed: a live session fails.
    pub fn record_pipe_failure(&mut self)
        ensures
            *final(self) == (if is_live(*old(self)) {
                SessionPhase::Failed
            } else {
                *old(self)
            }),
    {
        if *self == SessionPhase::Created || *self == SessionPhase::Ready {
            *self = SessionPhase::Failed;
        }
    }

    /// Ends the handshake, given what the attach request gave. A live session
    /// whose attach came back with at least one line is ready. An attach that
    /// brought no line before its timeout did not complete in time: the session
    /// fails with `HandshakeTimeout`, as does one that failed during the
    /// handshake. An attach request that could not be made fails a live session
    /// with that request's error.
    pub fn complete_handshake(&mut self, attach_reply: &Result<Vec<String>, LoaderError>) -> (r:
        Result<(), LoaderError>)
        ensures
            *final(self) == handshake_phase(*old(self), *attach_reply),
            r == handshake_result(*old(self), *attach_reply),
    {
        match *self {
            SessionPhase::Created => match attach_reply {
                Ok(lines) => if lines.len() > 0 {
                    *self = SessionPhase::Ready;
                    Ok(())
                } else {
                    *self = SessionPhase::Failed;
                    Err(LoaderError::HandshakeTimeout)
                },
                Err(e) => {
                    *self = SessionPhase::Failed;
                    Err(*e)
                },
            },
            SessionPhase::Ready => Ok(()),
            SessionPhase::Failed => Err(LoaderError::HandshakeTimeout),
            SessionPhase::Closed => Err(LoaderError::PipeIoFailure),
        }
    }

    /// Terminates the session. Closing twice is a write to a closed pipe.
    pub fn close(&mut self) -> (r: Result<(), LoaderError>)
        ensures
            *final(self) == SessionPhase::Closed,
            r == (if *old(self) == SessionPhase::Closed {
                Err::<(), LoaderError>(LoaderError::PipeIoFailure)
            } else {
                Ok(())
            }),
    {
        if *self == SessionPhase::Closed {
            Err(LoaderError::PipeIoFailure)
        } else {
            *self = SessionPhase::Closed;
            Ok(())
        }
    }
}

} // verus!
