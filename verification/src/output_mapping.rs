//! The provided output mappings: each declares which streams it needs
//! captured and converts the terminal record of a run into a typed result,
//! without ever panicking on a record whose streams break the capture
//! contract.

use vstd::prelude::*;

use crate::ExecResult;
use crate::IoError;
use crate::IoErrorKind;
use crate::OutputMapping;
use crate::UnexpectedExitStatus;

verus! {

/// The error of the byte-level mappings: an I/O failure or an unexpected
/// exit status.
#[derive(Debug, PartialEq, Eq)]
pub enum CommandExecutionError {
    /// Spawning, waiting or pipe interaction failed at the OS boundary.
    Io(IoError),
    /// The process completed with a status other than the expectation.
    UnexpectedExitStatus(UnexpectedExitStatus),
}

impl From<IoError> for CommandExecutionError {
    fn from(e: IoError) -> (r: CommandExecutionError)
        ensures
            r == CommandExecutionError::Io(e),
    {
        CommandExecutionError::Io(e)
    }
}

impl vstd::std_specs::convert::FromSpecImpl<IoError> for CommandExecutionError {
    open spec fn obeys_from_spec() -> bool {
        true
    }

    open spec fn from_spec(e: IoError) -> Self {
        CommandExecutionError::Io(e)
    }
}

impl From<UnexpectedExitStatus> for CommandExecutionError {
    fn from(e: UnexpectedExitStatus) -> (r: CommandExecutionError)
        ensures
            r == CommandExecutionError::UnexpectedExitStatus(e),
    {
        CommandExecutionError::UnexpectedExitStatus(e)
    }
}

impl vstd::std_specs::convert::FromSpecImpl<UnexpectedExitStatus> for CommandExecutionError {
    open spec fn obeys_from_spec() -> bool {
        true
    }

    open spec fn from_spec(e: UnexpectedExitStatus) -> Self {
        CommandExecutionError::UnexpectedExitStatus(e)
    }
}

/// Captured bytes that were not valid UTF-8, kept for diagnosis.
#[derive(Debug, PartialEq, Eq)]
pub struct Utf8DecodeError {
    /// The bytes that failed to decode.
    pub bytes: Vec<u8>,
}

/// The error of the text-level mappings: an I/O failure, an unexpected exit
/// status, or captured bytes that failed to decode as UTF-8.
#[derive(Debug, PartialEq, Eq)]
pub enum CommandExecutionWithStringOutputError {
    /// Spawning, waiting or pipe interaction failed at the OS boundary.
    Io(IoError),
    /// The process completed with a status other than the expectation.
    UnexpectedExitStatus(UnexpectedExitStatus),
    /// The captured bytes were not valid UTF-8.
    Utf8Error(Utf8DecodeError),
}

impl From<IoError> for CommandExecutionWithStringOutputError {
    fn from(e: IoError) -> (r: CommandExecutionWithStringOutputError)
        ensures
            r == CommandExecutionWithStringOutputError::Io(e),
    {
        CommandExecutionWithStringOutputError::Io(e)
    }
}

impl vstd::std_specs::convert::FromSpecImpl<IoError> for CommandExecutionWithStringOutputError {
    open spec fn obeys_from_spec() -> bool {
        true
    }

    open spec fn from_spec(e: IoError) -> Self {
        CommandExecutionWithStringOutputError::Io(e)
    }
}

impl From<UnexpectedExitStatus> for CommandExecutionWithStringOutputError {
    fn from(e: UnexpectedExitStatus) -> (r: CommandExecutionWithStringOutputError)
        ensures
            r == CommandExecutionWithStringOutputError::UnexpectedExitStatus(e),
    {
        CommandExecutionWithStringOutputError::UnexpectedExitStatus(e)
    }
}

impl vstd::std_specs::convert::FromSpecImpl<UnexpectedExitStatus> for CommandExecutionWithStringOutputError {
    open spec fn obeys_from_spec() -> bool {
        true
    }

    open spec fn from_spec(e: UnexpectedExitStatus) -> Self {
        CommandExecutionWithStringOutputError::UnexpectedExitStatus(e)
    }
}

/// What `String::from_utf8` decodes a byte sequence to when it is valid
/// UTF-8, and `None` when it is not; a function of the bytes alone.
pub uninterp spec fn utf8_decoded(bytes: Seq<u8>) -> Option<Seq<char>>;

/// Relies on `String::from_utf8`: it returns `Ok` exactly on valid UTF-8
/// input, and what it decodes to depends on the bytes alone.
#[verifier::external_body]
fn decode_utf8(bytes: &Vec<u8>) -> (r: Option<String>)
    ensures
        match r {
            Some(text) => utf8_decoded(bytes@) == Some(text@),
            None => utf8_decoded(bytes@) is None,
        },
{
    String::from_utf8(bytes.clone()).ok()
}

/// Whether an error is the one reported for a stream that the mapping needs
/// but that was not captured.
pub open spec fn is_missing_capture(e: IoError, message: Seq<char>) -> bool {
    e.kind == IoErrorKind::InvalidInput && e.message@ == message
}

/// The error reported when stdout was needed but not captured.
fn missing_stdout() -> (r: IoError)
    ensures
        is_missing_capture(r, "stdout was not captured"@),
{
    IoError { kind: IoErrorKind::InvalidInput, message: "stdout was not captured".to_owned() }
}

/// The error reported when stderr was needed but not captured.
fn missing_stderr() -> (r: IoError)
    ensures
        is_missing_capture(r, "stderr was not captured"@),
{
    IoError { kind: IoErrorKind::InvalidInput, message: "stderr was not captured".to_owned() }
}

/// Captures nothing and returns nothing; the run is only checked against the
/// exit-status expectation.
#[derive(Debug, Clone, Copy, PartialEq, Eq, Structural)]
pub struct ReturnNothing;

impl OutputMapping for ReturnNothing {
    type Output = ();

    type Error = CommandExecutionError;

    open spec fn needs_stdout_spec(&self) -> bool {
        false
    }

    open spec fn needs_stderr_spec(&self) -> bool {
        false
    }

    open spec fn map_req(&self, result: ExecResult) -> bool {
        true
    }

    open spec fn map_ens(&self, result: ExecResult, r: Result<(), CommandExecutionError>) -> bool {
        r is Ok
    }

    fn needs_captured_stdout(&self) -> bool {
        false
    }

    fn needs_captured_stderr(&self) -> bool {
        false
    }

    fn map_output(self, result: ExecResult) -> (r: Result<(), CommandExecutionError>) {
        Ok(())
    }
}

/// Captures stdout and returns its raw bytes.
#[derive(Debug, Clone, Copy, PartialEq, Eq, Structural)]
pub struct ReturnStdout;

impl OutputMapping for ReturnStdout {
    type Output = Vec<u8>;

    type Error = CommandExecutionError;

    open spec fn needs_stdout_spec(&self) -> bool {
        true
    }

    open spec fn needs_stderr_spec(&self) -> bool {
        false
    }

    open spec fn map_req(&self, result: ExecResult) -> bool {
        true
    }

    open spec fn map_ens(
        &self,
        result: ExecResult,
        r: Result<Vec<u8>, CommandExecutionError>,
    ) -> bool {
        match result.stdout {
            Some(bytes) => r matches Ok(out) && out@ == bytes@,
            None => r matches Err(CommandExecutionError::Io(e)) && is_missing_capture(
                e,
                "stdout was not captured"@,
            ),
        }
    }

    fn needs_captured_stdout(&self) -> bool {
        true
    }

    fn needs_captured_stderr(&self) -> bool {
        false
    }

    fn map_output(self, result: ExecResult) -> (r: Result<Vec<u8>, CommandExecutionError>) {
        match result.stdout {
            Some(bytes) => Ok(bytes),
            None => Err(CommandExecutionError::Io(missing_stdout())),
        }
    }
}

/// Captures stderr and returns its raw bytes.
#[derive(Debug, Clone, Copy, PartialEq, Eq, Structural)]
pub struct ReturnStderr;

impl OutputMapping for ReturnStderr {
    type Output = Vec<u8>;

    type Error = CommandExecutionError;

    open spec fn needs_stdout_spec(&self) -> bool {
        false
    }

    open spec fn needs_stderr_spec(&self) -> bool {
        true
    }

    open spec fn map_req(&self, result: ExecResult) -> bool {
        true
    }

    open spec fn map_ens(
        &self,
        result: ExecResult,
        r: Result<Vec<u8>, CommandExecutionError>,
    ) -> bool {
        match result.stderr {
            Some(bytes) => r matches Ok(out) && out@ == bytes@,
            None => r matches Err(CommandExecutionError::Io(e)) && is_missing_capture(
                e,
                "stderr was not captured"@,
            ),
        }
    }

    fn needs_captured_stdout(&self) -> bool {
        false
    }

    fn needs_captured_stderr(&self) -> bool {
        true
    }

    fn map_output(self, result: ExecResult) -> (r: Result<Vec<u8>, CommandExecutionError>) {
        match result.stderr {
            Some(bytes) => Ok(bytes),
            None => Err(CommandExecutionError::Io(missing_stderr())),
        }
    }
}

/// The output of [`ReturnStdoutAndErr`]: both captured streams, as raw bytes.
#[derive(Debug, PartialEq, Eq)]
pub struct CapturedStdoutAndErr {
    /// The captured stdout bytes.
    pub stdout: Vec<u8>,
    /// The captured stderr bytes.
    pub stderr: Vec<u8>,
}

/// Captures both streams and returns both as raw bytes.
#[derive(Debug, Clone, Copy, PartialEq, Eq, Structural)]
pub struct ReturnStdoutAndErr;

impl OutputMapping for ReturnStdoutAndErr {
    type Output = CapturedStdoutAndErr;

    type Error = CommandExecutionError;

    open spec fn needs_stdout_spec(&self) -> bool {
        true
    }

    open spec fn needs_stderr_spec(&self) -> bool {
        true
    }

    open spec fn map_req(&self, result: ExecResult) -> bool {
        true
    }

    open spec fn map_ens(
        &self,
        result: ExecResult,
        r: Result<CapturedStdoutAndErr, CommandExecutionError>,
    ) -> bool {
        match (result.stdout, result.stderr) {
            (Some(stdout), Some(stderr)) => r matches Ok(out) && out.stdout@ == stdout@
                && out.stderr@ == stderr@,
            (None, _) => r matches Err(CommandExecutionError::Io(e)) && is_missing_capture(
                e,
                "stdout was not captured"@,
            ),
            (Some(_), None) => r matches Err(CommandExecutionError::Io(e)) && is_missing_capture(
                e,
                "stderr was not captured"@,
            ),
        }
    }

    fn needs_captured_stdout(&self) -> bool {
        true
    }

    fn needs_captured_stderr(&self) -> bool {
        true
    }

    fn map_output(self, result: ExecResult) -> (r: Result<
        CapturedStdoutAndErr,
        CommandExecutionError,
    >) {
        match (result.stdout, result.stderr) {
            (Some(stdout), Some(stderr)) => Ok(CapturedStdoutAndErr { stdout, stderr }),
            (None, _) => Err(CommandExecutionError::Io(missing_stdout())),
            (Some(_), None) => Err(CommandExecutionError::Io(missing_stderr())),
        }
    }
}

/// What holds of the result of decoding one needed, captured stream as text:
/// the decoded string on valid UTF-8, the typed error otherwise.
pub open spec fn decoded_stream_ens(
    captured: Option<Vec<u8>>,
    stream_missing: Seq<char>,
    r: Result<String, CommandExecutionWithStringOutputError>,
) -> bool {
    match captured {
        Some(bytes) => match utf8_decoded(bytes@) {
            Some(text) => r matches Ok(out) && out@ == text,
            None => r matches Err(CommandExecutionWithStringOutputError::Utf8Error(e)) && e.bytes@
                == bytes@,
        },
        None => r matches Err(CommandExecutionWithStringOutputError::Io(e)) && is_missing_capture(
            e,
            stream_missing,
        ),
    }
}

/// Decodes one needed, captured stream as text.
fn decode_stream(captured: Option<Vec<u8>>, missing: IoError) -> (r: Result<
    String,
    CommandExecutionWithStringOutputError,
>)
    requires
        missing.kind == IoErrorKind::InvalidInput,
    ensures
        decoded_stream_ens(captured, missing.message@, r),
{
    match captured {
        Some(bytes) => match decode_utf8(&bytes) {
            Some(text) => Ok(text),
            None => Err(
                CommandExecutionWithStringOutputError::Utf8Error(Utf8DecodeError { bytes }),
            ),
        },
        None => Err(CommandExecutionWithStringOutputError::Io(missing)),
    }
}

/// Captures stdout and returns it decoded as UTF-8 text; invalid UTF-8 is a
/// mapping error.
#[derive(Debug, Clone, Copy, PartialEq, Eq, Structural)]
pub struct ReturnStdoutString;

impl OutputMapping for ReturnStdoutString {
    type Output = String;

    type Error = CommandExecutionWithStringOutputError;

    open spec fn needs_stdout_spec(&self) -> bool {
        true
    }

    open spec fn needs_stderr_spec(&self) -> bool {
        false
    }

    open spec fn map_req(&self, result: ExecResult) -> bool {
        true
    }

    open spec fn map_ens(
        &self,
        result: ExecResult,
        r: Result<String, CommandExecutionWithStringOutputError>,
    ) -> bool {
        decoded_stream_ens(result.stdout, "stdout was not captured"@, r)
    }

    fn needs_captured_stdout(&self) -> bool {
        true
    }

    fn needs_captured_stderr(&self) -> bool {
        false
    }

    fn map_output(self, result: ExecResult) -> (r: Result<
        String,
        CommandExecutionWithStringOutputError,
    >) {
        decode_stream(result.stdout, missing_stdout())
    }
}

/// Captures stderr and returns it decoded as UTF-8 text; invalid UTF-8 is a
/// mapping error.
#[derive(Debug, Clone, Copy, PartialEq, Eq, Structural)]
pub struct ReturnStderrString;

impl OutputMapping for ReturnStderrString {
    type Output = String;

    type Error = CommandExecutionWithStringOutputError;

    open spec fn needs_stdout_spec(&self) -> bool {
        false
    }

    open spec fn needs_stderr_spec(&self) -> bool {
        true
    }

    open spec fn map_req(&self, result: ExecResult) -> bool {
        true
    }

    open spec fn map_ens(
        &self,
        result: ExecResult,
        r: Result<String, CommandExecutionWithStringOutputError>,
    ) -> bool {
        decoded_stream_ens(result.stderr, "stderr was not captured"@, r)
    }

    fn needs_captured_stdout(&self) -> bool {
        false
    }

    fn needs_captured_stderr(&self) -> bool {
        true
    }

    fn map_output(self, result: ExecResult) -> (r: Result<
        String,
        CommandExecutionWithStringOutputError,
    >) {
        decode_stream(result.stderr, missing_stderr())
    }
}

/// Captures stdout, decodes it as UTF-8 text and hands it to a
/// caller-supplied transform producing the command's typed output; the
/// transform's outcome is returned verbatim.
pub struct MapStdoutString<O, F> {
    /// The transform over the decoded stdout text.
    pub func: F,
    /// Pins down the transform's output type.
    pub output_kind: core::marker::PhantomData<O>,
}

impl<O, F> MapStdoutString<O, F> where
    F: FnOnce(String) -> Result<O, CommandExecutionWithStringOutputError>,
 {
    /// A mapping that pipes decoded stdout through the given transform.
    pub fn new(func: F) -> (r: MapStdoutString<O, F>)
        ensures
            r.func == func,
    {
        MapStdoutString { func, output_kind: core::marker::PhantomData }
    }
}

impl<O, F> OutputMapping for MapStdoutString<O, F> where
    F: FnOnce(String) -> Result<O, CommandExecutionWithStringOutputError>,
 {
    type Output = O;

    type Error = CommandExecutionWithStringOutputError;

    #[verifier::inline]
    open spec fn needs_stdout_spec(&self) -> bool {
        true
    }

    #[verifier::inline]
    open spec fn needs_stderr_spec(&self) -> bool {
        false
    }

    #[verifier::inline]
    open spec fn map_req(&self, result: ExecResult) -> bool {
        forall|text: String|
            (match result.stdout {
                Some(bytes) => utf8_decoded(bytes@) == Some(text@),
                None => false,
            }) ==> #[trigger] call_requires(self.func, (text,))
    }

    #[verifier::inline]
    open spec fn map_ens(
        &self,
        result: ExecResult,
        r: Result<O, CommandExecutionWithStringOutputError>,
    ) -> bool {
        match result.stdout {
            Some(bytes) => match utf8_decoded(bytes@) {
                Some(text) => exists|s: String|
                    s@ == text && #[trigger] call_ensures(self.func, (s,), r),
                None => r matches Err(CommandExecutionWithStringOutputError::Utf8Error(e))
                    && e.bytes@ == bytes@,
            },
            None => r matches Err(CommandExecutionWithStringOutputError::Io(e))
                && is_missing_capture(e, "stdout was not captured"@),
        }
    }

    fn needs_captured_stdout(&self) -> bool {
        true
    }

    fn needs_captured_stderr(&self) -> bool {
        false
    }

    fn map_output(self, result: ExecResult) -> (r: Result<
        O,
        CommandExecutionWithStringOutputError,
    >) {
        match result.stdout {
            Some(bytes) => match decode_utf8(&bytes) {
                Some(text) => (self.func)(text),
                None => Err(
                    CommandExecutionWithStringOutputError::Utf8Error(
                        Utf8DecodeError { bytes },
                    ),
                ),
            },
            None => Err(CommandExecutionWithStringOutputError::Io(missing_stdout())),
        }
    }
}

} // verus!
