//! Pipe setups for standard streams that are not reserved for internal
//! capture.

use vstd::prelude::*;

verus! {

/// How a standard stream of the child process is set up when it is not
/// reserved for internal capture.
///
/// A stream that the output mapping declares as needing capture is always
/// piped for internal collection; a custom setup for such a stream is
/// ignored, the capture need taking precedence.
#[derive(Debug, Clone, Copy, PartialEq, Eq, Structural)]
pub enum PipeSetup {
    /// Connect the stream to a new pipe whose process-side end can be taken
    /// from the spawned child.
    Piped,
    /// Let the stream go to the same place as the parent process's stream.
    Inherit,
    /// Connect the stream to nothing.
    Null,
}

} // verus!
