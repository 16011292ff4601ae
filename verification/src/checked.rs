//! A checked-status compatibility layer: a narrow surface that turns "ran,
//! but with an unsuccessful exit status" into an error, directly atop a
//! generic spawn/wait primitive and independent of any output mapping.
//!
//! The raw outcomes come from outside (a blocking status wait, a
//! non-blocking poll, a wait that collects output); [`convert_result`] checks
//! them uniformly. An embedding application implements the thin wrappers
//! that produce the raw outcomes at the OS boundary.

use vstd::prelude::*;
use vstd::pervasive::unreached;
use vstd::std_specs::convert::FromSpec;

use crate::io_error_into;
use crate::ExitStatus;
use crate::IoError;

verus! {

/// The collected output of a finished process, deliberately not coupled to
/// an exit status.
#[derive(Debug, Clone, PartialEq, Eq)]
pub struct Output {
    /// The collected stdout bytes.
    pub stdout: Vec<u8>,
    /// The collected stderr bytes.
    pub stderr: Vec<u8>,
}

/// The full record an output-collecting wait reports: the exit status plus
/// both collected streams.
#[derive(Debug, Clone, PartialEq, Eq)]
pub struct RawOutput {
    /// The exit status the process terminated with.
    pub status: ExitStatus,
    /// The collected stdout bytes.
    pub stdout: Vec<u8>,
    /// The collected stderr bytes.
    pub stderr: Vec<u8>,
}

impl From<RawOutput> for Output {
    /// Drops the status, keeping the collected streams.
    fn from(raw: RawOutput) -> (r: Output)
        ensures
            r == (Output { stdout: raw.stdout, stderr: raw.stderr }),
    {
        Output { stdout: raw.stdout, stderr: raw.stderr }
    }
}

impl vstd::std_specs::convert::FromSpecImpl<RawOutput> for Output {
    open spec fn obeys_from_spec() -> bool {
        true
    }

    open spec fn from_spec(raw: RawOutput) -> Self {
        Output { stdout: raw.stdout, stderr: raw.stderr }
    }
}

/// The error of the checked status/wait operations, which never carry
/// collected output.
#[derive(Debug, PartialEq, Eq)]
pub enum StatusError {
    /// The underlying operation failed at the OS boundary.
    Io(IoError),
    /// The process completed with an unsuccessful exit status.
    Failure(ExitStatus),
}

impl From<IoError> for StatusError {
    fn from(e: IoError) -> (r: StatusError)
        ensures
            r == StatusError::Io(e),
    {
        StatusError::Io(e)
    }
}

impl vstd::std_specs::convert::FromSpecImpl<IoError> for StatusError {
    open spec fn obeys_from_spec() -> bool {
        true
    }

    open spec fn from_spec(e: IoError) -> Self {
        StatusError::Io(e)
    }
}

/// The error of the checked output-collecting operations; a failing run
/// always has its collected output at hand, so the failure carries it.
#[derive(Debug, PartialEq, Eq)]
pub enum StatusErrorWithOutput {
    /// The underlying operation failed at the OS boundary.
    Io(IoError),
    /// The process completed with an unsuccessful exit status; its collected
    /// output is included.
    Failure(ExitStatus, Output),
}

impl From<IoError> for StatusErrorWithOutput {
    fn from(e: IoError) -> (r: StatusErrorWithOutput)
        ensures
            r == StatusErrorWithOutput::Io(e),
    {
        StatusErrorWithOutput::Io(e)
    }
}

impl vstd::std_specs::convert::FromSpecImpl<IoError> for StatusErrorWithOutput {
    open spec fn obeys_from_spec() -> bool {
        true
    }

    open spec fn from_spec(e: IoError) -> Self {
        StatusErrorWithOutput::Io(e)
    }
}

/// The union of [`StatusError`] and [`StatusErrorWithOutput`]: collected
/// output may or may not be at hand. No checked operation returns it; both
/// narrower errors convert into it.
#[derive(Debug, PartialEq, Eq)]
pub enum Error {
    /// The underlying operation failed at the OS boundary.
    Io(IoError),
    /// The process completed with an unsuccessful exit status, with the
    /// collected output when the operation had collected any.
    Failure(ExitStatus, Option<Output>),
}

impl From<StatusError> for Error {
    fn from(e: StatusError) -> (r: Error)
        ensures
            r == (match e {
                StatusError::Io(io) => Error::Io(io),
                StatusError::Failure(status) => Error::Failure(status, None),
            }),
    {
        match e {
            StatusError::Io(io) => Error::Io(io),
            StatusError::Failure(status) => Error::Failure(status, None),
        }
    }
}

impl vstd::std_specs::convert::FromSpecImpl<StatusError> for Error {
    open spec fn obeys_from_spec() -> bool {
        true
    }

    open spec fn from_spec(e: StatusError) -> Self {
        match e {
            StatusError::Io(io) => Error::Io(io),
            StatusError::Failure(status) => Error::Failure(status, None),
        }
    }
}

impl From<StatusErrorWithOutput> for Error {
    fn from(e: StatusErrorWithOutput) -> (r: Error)
        ensures
            r == (match e {
                StatusErrorWithOutput::Io(io) => Error::Io(io),
                StatusErrorWithOutput::Failure(status, output) => Error::Failure(
                    status,
                    Some(output),
                ),
            }),
    {
        match e {
            StatusErrorWithOutput::Io(io) => Error::Io(io),
            StatusErrorWithOutput::Failure(status, output) => Error::Failure(
                status,
                Some(output),
            ),
        }
    }
}

impl vstd::std_specs::convert::FromSpecImpl<StatusErrorWithOutput> for Error {
    open spec fn obeys_from_spec() -> bool {
        true
    }

    open spec fn from_spec(e: StatusErrorWithOutput) -> Self {
        match e {
            StatusErrorWithOutput::Io(io) => Error::Io(io),
            StatusErrorWithOutput::Failure(status, output) => Error::Failure(
                status,
                Some(output),
            ),
        }
    }
}

/// Abstracts over the raw values a process operation reports — an exit
/// status alone, an optional one from a non-blocking poll, or a status with
/// collected output — so that one conversion, [`convert_result`], serves
/// every checked variant.
pub trait OutputOrExitStatus: Sized {
    /// The checked error for this raw value.
    type Error: From<IoError>;

    /// The checked output for this raw value.
    type Out;

    /// Whether the raw value counts as success.
    spec fn is_ok_result(&self) -> bool;

    /// The error a non-successful raw value becomes.
    spec fn error_spec(self) -> Self::Error;

    /// The output a successful raw value becomes.
    spec fn out_spec(self) -> Self::Out;

    /// Returns whether the raw value counts as success.
    fn use_ok_result(&self) -> (r: bool)
        ensures
            r == self.is_ok_result(),
    ;

    /// Turns a non-successful raw value into its checked error.
    fn create_error(self) -> (r: Self::Error)
        requires
            !self.is_ok_result(),
        ensures
            r == self.error_spec(),
    ;

    /// Turns a successful raw value into its checked output.
    fn convert(self) -> (r: Self::Out)
        ensures
            r == self.out_spec(),
    ;
}

impl OutputOrExitStatus for ExitStatus {
    type Error = StatusError;

    type Out = ();

    /// A blocking status wait succeeded iff the status is successful.
    open spec fn is_ok_result(&self) -> bool {
        self.is_successful()
    }

    open spec fn error_spec(self) -> StatusError {
        StatusError::Failure(self)
    }

    open spec fn out_spec(self) -> () {
        ()
    }

    fn use_ok_result(&self) -> (r: bool) {
        self.successful()
    }

    fn create_error(self) -> (r: StatusError) {
        StatusError::Failure(self)
    }

    fn convert(self) -> (r: ()) {
        ()
    }
}

impl OutputOrExitStatus for Option<ExitStatus> {
    type Error = StatusError;

    type Out = bool;

    /// A non-blocking poll succeeded when the process has not exited yet
    /// (`None`) or exited successfully.
    open spec fn is_ok_result(&self) -> bool {
        match *self {
            Some(status) => status.is_successful(),
            None => true,
        }
    }

    open spec fn error_spec(self) -> StatusError {
        StatusError::Failure(self->0)
    }

    /// Whether the process has exited.
    open spec fn out_spec(self) -> bool {
        self is Some
    }

    fn use_ok_result(&self) -> (r: bool) {
        match self {
            Some(status) => status.successful(),
            None => true,
        }
    }

    fn create_error(self) -> (r: StatusError) {
        match self {
            Some(status) => StatusError::Failure(status),
            // success is not checked here: a pending process counts as
            // success, so a non-successful raw value carries a status
            None => unreached(),
        }
    }

    fn convert(self) -> (r: bool) {
        self.is_some()
    }
}

impl OutputOrExitStatus for RawOutput {
    type Error = StatusErrorWithOutput;

    type Out = Output;

    /// An output-collecting wait succeeded iff the status is successful.
    open spec fn is_ok_result(&self) -> bool {
        self.status.is_successful()
    }

    open spec fn error_spec(self) -> StatusErrorWithOutput {
        StatusErrorWithOutput::Failure(
            self.status,
            Output { stdout: self.stdout, stderr: self.stderr },
        )
    }

    open spec fn out_spec(self) -> Output {
        Output { stdout: self.stdout, stderr: self.stderr }
    }

    fn use_ok_result(&self) -> (r: bool) {
        self.status.successful()
    }

    fn create_error(self) -> (r: StatusErrorWithOutput) {
        let RawOutput { status, stdout, stderr } = self;
        StatusErrorWithOutput::Failure(status, Output { stdout, stderr })
    }

    fn convert(self) -> (r: Output) {
        Output::from(self)
    }
}

/// Checks the raw outcome of a process operation: an I/O failure is
/// converted into the checked error; a raw value that counts as success
/// becomes its checked output; any other becomes the typed status error.
pub fn convert_result<T: OutputOrExitStatus>(result: Result<T, IoError>) -> (r: Result<
    T::Out,
    T::Error,
>)
    requires
        <T::Error as FromSpec<IoError>>::obeys_from_spec(),
    ensures
        match result {
            Ok(value) => if value.is_ok_result() {
                r == Ok::<T::Out, T::Error>(value.out_spec())
            } else {
                r == Err::<T::Out, T::Error>(value.error_spec())
            },
            Err(e) => r == Err::<T::Out, T::Error>(io_error_into::<T::Error>(e)),
        },
{
    match result {
        Ok(value) => if value.use_ok_result() {
            Ok(value.convert())
        } else {
            Err(value.create_error())
        },
        Err(e) => Err(T::Error::from(e)),
    }
}

} // verus!
