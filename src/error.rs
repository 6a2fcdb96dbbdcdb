//! The failures that the library reports.

use vstd::prelude::*;

verus! {

/// What went wrong in a session or an upload.
#[derive(Debug, Clone, Copy, PartialEq, Eq, Structural)]
pub enum LoaderError {
    /// The debugger process could not be started.
    SpawnFailure,
    /// A write to or a read from one of the process's pipes failed.
    PipeIoFailure,
    /// Attaching to the remote target did not complete.
    HandshakeTimeout,
    /// A response line lacked the pattern that the command's reply should have.
    MalformedResponse,
    /// A call that should have returned a value produced no output.
    NoReturnValue,
    /// The target's checksum of a chunk differs from the host's.
    ChecksumMismatch { host: u32, target: u32, chunk_index: usize },
    /// The scratch directory could not be reset, or a chunk could not be staged.
    FilesystemError,
    /// An output stream of the debugger closed in the middle of a session.
    ProcessExitedUnexpectedly,
}

} // verus!
