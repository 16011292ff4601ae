//! The spawn seam: resolved options, the backend interface that turns them
//! into a live-process handle, and the handle interface awaited for the
//! terminal record of a run.
//!
//! The library itself never talks to the operating system. Scripted backends
//! (see the `mock` module) live here in verified code; a backend that drives
//! real OS process creation implements [`Spawner`] outside the library and is
//! installed with `Command::with_spawn_impl`.

use vstd::prelude::*;

use crate::env::EnvBuilder;
use crate::pipe::PipeSetup;
use crate::ExecResult;
use crate::IoError;
use crate::IoErrorKind;

verus! {

/// Everything a backend needs to create the child process: the program, its
/// arguments and environment, and the non-capture pipe configuration. The
/// two capture flags travel beside it, as separate arguments of
/// [`Spawner::spawn`].
#[derive(Debug)]
pub struct SpawnOptions {
    /// The program to spawn.
    pub program: String,
    /// The arguments passed to it, in order; duplicates are allowed.
    pub arguments: Vec<String>,
    /// The environment the child process will see.
    pub env_builder: EnvBuilder,
    /// Run the child in this working directory instead of the spawning
    /// process's one, if set.
    pub working_directory_override: Option<String>,
    /// A custom stdout setup, honored only when stdout is not captured.
    pub custom_stdout_setup: Option<PipeSetup>,
    /// A custom stderr setup, honored only when stderr is not captured.
    pub custom_stderr_setup: Option<PipeSetup>,
    /// A custom stdin setup.
    pub custom_stdin_setup: Option<PipeSetup>,
}

/// Specification-level form of [`SpawnOptions`].
pub struct SpawnOptionsView {
    pub program: Seq<char>,
    pub arguments: Seq<Seq<char>>,
    pub env_builder: crate::env::EnvBuilderView,
    pub working_directory_override: Option<Seq<char>>,
    pub custom_stdout_setup: Option<PipeSetup>,
    pub custom_stderr_setup: Option<PipeSetup>,
    pub custom_stdin_setup: Option<PipeSetup>,
}

impl View for SpawnOptions {
    type V = SpawnOptionsView;

    open spec fn view(&self) -> SpawnOptionsView {
        SpawnOptionsView {
            program: self.program@,
            arguments: self.arguments.deep_view(),
            env_builder: self.env_builder@,
            working_directory_override: self.working_directory_override.deep_view(),
            custom_stdout_setup: self.custom_stdout_setup,
            custom_stderr_setup: self.custom_stderr_setup,
            custom_stdin_setup: self.custom_stdin_setup,
        }
    }
}

impl SpawnOptions {
    /// Options for the given program: no arguments, an inheriting environment
    /// with no updates, no working-directory override, no custom pipe setups.
    pub fn new(program: String) -> (r: SpawnOptions)
        ensures
            r@.program == program@,
            r@.arguments == Seq::<Seq<char>>::empty(),
            r@.env_builder.inherit_env == true,
            r@.env_builder.updates == Map::<Seq<char>, crate::env::EnvUpdateView>::empty(),
            r@.working_directory_override is None,
            r@.custom_stdout_setup is None,
            r@.custom_stderr_setup is None,
            r@.custom_stdin_setup is None,
    {
        SpawnOptions {
            program,
            arguments: Vec::new(),
            env_builder: EnvBuilder::new(),
            working_directory_override: None,
            custom_stdout_setup: None,
            custom_stderr_setup: None,
            custom_stdin_setup: None,
        }
    }
}

/// A live-process handle, produced by a [`Spawner`] and consumed by waiting
/// for the terminal record of the run.
pub trait ChildHandle: Sized {
    /// The process-side stdout pipe end, where a custom setup provides one.
    type StdoutPipe;

    /// The process-side stderr pipe end, where a custom setup provides one.
    type StderrPipe;

    /// The process-side stdin pipe end, where a custom setup provides one.
    type StdinPipe;

    /// What this handle demands before it can be awaited. The default
    /// demands nothing.
    open spec fn wait_req(&self) -> bool {
        true
    }

    /// What holds of the terminal record (or I/O failure) that awaiting this
    /// handle returns. The default claims nothing; a verified handle
    /// overrides it.
    open spec fn wait_ens(&self, r: Result<ExecResult, IoError>) -> bool {
        true
    }

    /// Whether a custom (non-capturing) stdout pipe end is still available.
    /// The default claims nothing; a verified handle overrides it.
    open spec fn has_custom_stdout(&self) -> bool {
        arbitrary()
    }

    /// Whether a custom (non-capturing) stderr pipe end is still available.
    /// The default claims nothing; a verified handle overrides it.
    open spec fn has_custom_stderr(&self) -> bool {
        arbitrary()
    }

    /// Whether a custom stdin pipe end is still available.
    /// The default claims nothing; a verified handle overrides it.
    open spec fn has_custom_stdin(&self) -> bool {
        arbitrary()
    }

    /// Blocks until the process has exited, draining any pipes reserved for
    /// capture concurrently with waiting, and returns the terminal record.
    fn wait_with_output(self) -> (r: Result<ExecResult, IoError>)
        requires
            self.wait_req(),
        ensures
            self.wait_ens(r),
    ;

    /// Takes out the process-side stdout pipe end. Returns one exactly when
    /// stdout was set up as a custom (non-capturing) pipe and not yet taken;
    /// a stream reserved for capture is never retrievable.
    fn take_stdout(&mut self) -> (r: Option<Self::StdoutPipe>)
        ensures
            (r is Some) == old(self).has_custom_stdout(),
            !final(self).has_custom_stdout(),
            final(self).has_custom_stderr() == old(self).has_custom_stderr(),
            final(self).has_custom_stdin() == old(self).has_custom_stdin(),
            final(self).wait_req() == old(self).wait_req(),
            forall|res: Result<ExecResult, IoError>|
                #[trigger] final(self).wait_ens(res) == old(self).wait_ens(res),
    ;

    /// Takes out the process-side stderr pipe end; see
    /// [`ChildHandle::take_stdout`].
    fn take_stderr(&mut self) -> (r: Option<Self::StderrPipe>)
        ensures
            (r is Some) == old(self).has_custom_stderr(),
            !final(self).has_custom_stderr(),
            final(self).has_custom_stdout() == old(self).has_custom_stdout(),
            final(self).has_custom_stdin() == old(self).has_custom_stdin(),
            final(self).wait_req() == old(self).wait_req(),
            forall|res: Result<ExecResult, IoError>|
                #[trigger] final(self).wait_ens(res) == old(self).wait_ens(res),
    ;

    /// Takes out the process-side stdin pipe end, if one was set up and not
    /// yet taken.
    fn take_stdin(&mut self) -> (r: Option<Self::StdinPipe>)
        ensures
            (r is Some) == old(self).has_custom_stdin(),
            !final(self).has_custom_stdin(),
            final(self).has_custom_stdout() == old(self).has_custom_stdout(),
            final(self).has_custom_stderr() == old(self).has_custom_stderr(),
            final(self).wait_req() == old(self).wait_req(),
            forall|res: Result<ExecResult, IoError>|
                #[trigger] final(self).wait_ens(res) == old(self).wait_ens(res),
    ;
}

/// A spawn backend: turns resolved options plus the two capture flags into a
/// live-process handle, or fails with an I/O error.
///
/// A capture flag set for a stream means the backend must pipe that stream
/// and reserve it for internal collection — it must not be retrievable from
/// the handle, and a custom setup for it is ignored. A custom setup for a
/// stream that is not captured is honored.
pub trait Spawner: Sized {
    /// The live-process handle this backend produces.
    type Handle: ChildHandle;

    /// What this backend demands of a spawn call. The default demands
    /// nothing.
    open spec fn spawn_req(
        &self,
        options: SpawnOptions,
        capture_stdout: bool,
        capture_stderr: bool,
    ) -> bool {
        true
    }

    /// What holds of the outcome of a spawn call. The default claims
    /// nothing; a verified backend overrides it.
    open spec fn spawn_ens(
        &self,
        options: SpawnOptions,
        capture_stdout: bool,
        capture_stderr: bool,
        r: Result<Self::Handle, IoError>,
    ) -> bool {
        true
    }

    /// Creates the child process described by the options and capture flags.
    fn spawn(self, options: SpawnOptions, capture_stdout: bool, capture_stderr: bool) -> (r:
        Result<Self::Handle, IoError>)
        requires
            self.spawn_req(options, capture_stdout, capture_stderr),
        ensures
            self.spawn_ens(options, capture_stdout, capture_stderr, r),
    ;
}

/// The backend a fresh `Command` starts with. The library contains no code
/// that talks to the operating system, so this placeholder fails every spawn
/// with an I/O error of kind [`IoErrorKind::Unsupported`]; commands meant to
/// run must first install a backend with `Command::with_spawn_impl` — the
/// embedding application's OS backend, or a scripted one from the `mock`
/// module.
#[derive(Debug, Clone, Copy, PartialEq, Eq, Structural)]
pub struct UnconfiguredSpawner;

/// The handle type of [`UnconfiguredSpawner`]; no value of it is ever
/// produced.
#[derive(Debug, Clone, Copy, PartialEq, Eq, Structural)]
pub struct UnconfiguredHandle;

impl ChildHandle for UnconfiguredHandle {
    type StdoutPipe = ();

    type StderrPipe = ();

    type StdinPipe = ();

    open spec fn wait_req(&self) -> bool {
        true
    }

    open spec fn wait_ens(&self, r: Result<ExecResult, IoError>) -> bool {
        r matches Err(e) && is_no_backend_error(e)
    }

    open spec fn has_custom_stdout(&self) -> bool {
        false
    }

    open spec fn has_custom_stderr(&self) -> bool {
        false
    }

    open spec fn has_custom_stdin(&self) -> bool {
        false
    }

    fn wait_with_output(self) -> (r: Result<ExecResult, IoError>) {
        Err(no_backend_error())
    }

    fn take_stdout(&mut self) -> (r: Option<()>) {
        None
    }

    fn take_stderr(&mut self) -> (r: Option<()>) {
        None
    }

    fn take_stdin(&mut self) -> (r: Option<()>) {
        None
    }
}

impl Spawner for UnconfiguredSpawner {
    type Handle = UnconfiguredHandle;

    open spec fn spawn_req(
        &self,
        options: SpawnOptions,
        capture_stdout: bool,
        capture_stderr: bool,
    ) -> bool {
        true
    }

    open spec fn spawn_ens(
        &self,
        options: SpawnOptions,
        capture_stdout: bool,
        capture_stderr: bool,
        r: Result<UnconfiguredHandle, IoError>,
    ) -> bool {
        r matches Err(e) && is_no_backend_error(e)
    }

    fn spawn(self, options: SpawnOptions, capture_stdout: bool, capture_stderr: bool) -> (r:
        Result<UnconfiguredHandle, IoError>) {
        Err(no_backend_error())
    }
}

/// Whether an error is the one every operation of the placeholder backend
/// fails with.
pub open spec fn is_no_backend_error(e: IoError) -> bool {
    e.kind == IoErrorKind::Unsupported && e.message@ == "no spawn backend installed"@
}

/// The error every operation of the placeholder backend fails with.
fn no_backend_error() -> (r: IoError)
    ensures
        is_no_backend_error(r),
{
    IoError {
        kind: IoErrorKind::Unsupported,
        message: "no spawn backend installed".to_owned(),
    }
}

} // verus!
