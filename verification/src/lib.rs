//! A verified, mockable process-execution pipeline.
//!
//! A [`Command`] bundles the program to run, its arguments and environment,
//! an expected [`ExitStatus`] and an [`OutputMapping`] that both declares
//! which output streams must be captured and converts the captured bytes
//! into a typed result. Spawning is delegated to a pluggable
//! [`spawn::Spawner`] backend, so the whole run-to-completion pipeline can be
//! driven by scripted results instead of a real operating-system process.
//!
//! The pipeline: `Command::spawn` asks the backend for a live handle, with
//! the capture flags that were frozen from the mapping at construction;
//! `Child::wait` awaits the terminal [`ExecResult`], checks the configured
//! exit-status expectation, and only then hands the record to the mapping;
//! `Command::run` composes the two and returns the first failure it meets.

use vstd::prelude::*;
use vstd::std_specs::convert::FromSpec;

pub mod checked;
pub mod env;
mod exit_status;
pub mod mock;
pub mod output_mapping;
pub mod pipe;
pub mod spawn;

pub use exit_status::ExitStatus;
pub use exit_status::OpaqueOsExitStatus;

use crate::spawn::ChildHandle;
use crate::spawn::SpawnOptions;
use crate::spawn::Spawner;
use crate::spawn::UnconfiguredSpawner;

verus! {

/// The kind of failure an interaction at the operating-system boundary
/// reports.
#[derive(Debug, Clone, Copy, PartialEq, Eq, Structural)]
pub enum IoErrorKind {
    NotFound,
    PermissionDenied,
    BrokenPipe,
    InvalidInput,
    InvalidData,
    Interrupted,
    UnexpectedEof,
    WouldBlock,
    Unsupported,
    Other,
}

/// An I/O failure at the operating-system boundary, as this library records
/// it: a kind plus a human-readable message. Always propagated to the
/// caller, never recovered from inside the pipeline.
#[derive(Debug, PartialEq, Eq)]
pub struct IoError {
    /// What went wrong, coarsely.
    pub kind: IoErrorKind,
    /// A human-readable description of the failure.
    pub message: String,
}

impl IoError {
    /// An error of the given kind with the given message.
    pub fn new(kind: IoErrorKind, message: String) -> (r: IoError)
        ensures
            r == (IoError { kind, message }),
    {
        IoError { kind, message }
    }
}

/// The command failed because the process ran to completion with an exit
/// status other than the configured expectation (by default: the exit status
/// was not the numeric code zero).
#[derive(Debug, Clone, Copy, PartialEq, Eq, Structural)]
pub struct UnexpectedExitStatus {
    /// The status the process actually terminated with.
    pub got: ExitStatus,
    /// The status the command was configured to expect.
    pub expected: ExitStatus,
}

/// The terminal record of one process run: how it exited, plus the bytes
/// collected from each stream that was reserved for capture.
///
/// The optional streams are a capture contract, not a lifecycle state: a
/// stream is `Some` exactly when it was declared as needing capture before
/// the spawn. A scripted backend that breaks this contract is a programming
/// error of the script, which output mappings must still meet without
/// panicking, each per its own contract.
#[derive(Debug, PartialEq, Eq)]
pub struct ExecResult {
    /// The exit status the process terminated with.
    pub exit_status: ExitStatus,
    /// The stdout bytes captured during the run, if stdout was captured.
    pub stdout: Option<Vec<u8>>,
    /// The stderr bytes captured during the run, if stderr was captured.
    pub stderr: Option<Vec<u8>>,
}

impl Default for ExecResult {
    /// A successful exit (code zero) with no captured streams.
    fn default() -> (r: Self)
        ensures
            r.exit_status == ExitStatus::Code(0),
            r.stdout is None,
            r.stderr is None,
    {
        ExecResult { exit_status: ExitStatus::Code(0), stdout: None, stderr: None }
    }
}

/// Decides what `Command::run` returns: which streams must be captured (read
/// once, when the command is created, and frozen into the spawn flags) and
/// how the terminal [`ExecResult`] maps to the typed result.
pub trait OutputMapping: Sized {
    /// The output produced by the command when the run does not fail.
    type Output;

    /// The error produced by the command when the run fails.
    type Error;

    /// Whether this mapping needs stdout captured; the pure function of the
    /// mapping value that [`OutputMapping::needs_captured_stdout`] computes.
    /// The default claims nothing; a verified mapping overrides it.
    open spec fn needs_stdout_spec(&self) -> bool {
        arbitrary()
    }

    /// Whether this mapping needs stderr captured; the pure function of the
    /// mapping value that [`OutputMapping::needs_captured_stderr`] computes.
    /// The default claims nothing; a verified mapping overrides it.
    open spec fn needs_stderr_spec(&self) -> bool {
        arbitrary()
    }

    /// What this mapping demands of the record it is asked to convert.
    /// The default demands nothing.
    open spec fn map_req(&self, result: ExecResult) -> bool {
        true
    }

    /// What holds of the outcome of converting a given record.
    /// The default claims nothing; a verified mapping overrides it.
    open spec fn map_ens(&self, result: ExecResult, r: Result<Self::Output, Self::Error>) -> bool {
        true
    }

    /// Whether stdout must be captured for [`OutputMapping::map_output`].
    /// Read once at command construction and frozen into the spawn flags.
    fn needs_captured_stdout(&self) -> (r: bool)
        ensures
            r == self.needs_stdout_spec(),
    ;

    /// Whether stderr must be captured for [`OutputMapping::map_output`].
    /// Read once at command construction and frozen into the spawn flags.
    fn needs_captured_stderr(&self) -> (r: bool)
        ensures
            r == self.needs_stderr_spec(),
    ;

    /// Converts the terminal record of the run into the typed result.
    /// Invoked at most once, and only after a configured exit-status
    /// expectation held (with the expectation disabled, it is invoked on
    /// every completed run and may do its own status-based rejection).
    fn map_output(self, result: ExecResult) -> (r: Result<Self::Output, Self::Error>)
        requires
            self.map_req(result),
        ensures
            self.map_ens(result, r),
    ;
}

/// Whether conversions from the pipeline's two failure kinds into the error
/// type `E` have exact specifications. True of the library's own error
/// types; every exact pipeline contract is conditioned on it.
pub open spec fn obeys_command_error<E: From<IoError> + From<UnexpectedExitStatus>>() -> bool {
    &&& <E as FromSpec<IoError>>::obeys_from_spec()
    &&& <E as FromSpec<UnexpectedExitStatus>>::obeys_from_spec()
}

/// The value that converting an I/O failure into the error type gives.
pub open spec fn io_error_into<E: From<IoError>>(e: IoError) -> E {
    <E as FromSpec<IoError>>::from_spec(e)
}

/// The value that converting an unexpected-exit-status failure into the
/// error type gives.
pub open spec fn status_error_into<E: From<UnexpectedExitStatus>>(e: UnexpectedExitStatus) -> E {
    <E as FromSpec<UnexpectedExitStatus>>::from_spec(e)
}

/// Whether an exit status passes the configured expectation: with the
/// expectation disabled (`None`), every status passes.
pub open spec fn status_accepted(expected: Option<ExitStatus>, got: ExitStatus) -> bool {
    match expected {
        Some(status) => status == got,
        None => true,
    }
}

/// A process invocation under construction: the resolved spawn options, the
/// exit-status expectation, the output mapping, and the spawn backend.
///
/// Every configuration method consumes the command and returns it by value,
/// so factory functions can build and hand out commands freely. Spawning
/// consumes the command and yields a [`Child`].
pub struct Command<M, S> {
    /// The program, arguments, environment and pipe setups handed to the
    /// backend on spawn.
    pub spawn_options: SpawnOptions,
    /// The exit status demanded of the run; `None` disables the check.
    pub expected_exit_status: Option<ExitStatus>,
    /// Whether stdout will be captured; frozen from the mapping at
    /// construction.
    pub capture_stdout: bool,
    /// Whether stderr will be captured; frozen from the mapping at
    /// construction.
    pub capture_stderr: bool,
    /// Converts the terminal record of the run into the typed result.
    pub output_mapping: M,
    /// Creates the live process; replaceable, which is the seam for
    /// substituting scripted backends in tests.
    pub spawn_impl: S,
}

/// A spawned, in-flight (or finished) process: the live handle together with
/// the expectation and mapping that will judge its terminal record. Consumed
/// by [`Child::wait`].
pub struct Child<M, H> {
    /// The exit status demanded of the run; `None` disables the check.
    pub expected_exit_status: Option<ExitStatus>,
    /// Converts the terminal record of the run into the typed result.
    pub output_mapping: M,
    /// The backend-specific live-process handle.
    pub child: H,
}

impl<M, S> Command<M, S> {
    /// Everything apart from the spawn options carried over unchanged.
    pub open spec fn same_apart_from_options(self, other: Command<M, S>) -> bool {
        &&& other.expected_exit_status == self.expected_exit_status
        &&& other.capture_stdout == self.capture_stdout
        &&& other.capture_stderr == self.capture_stderr
        &&& other.output_mapping == self.output_mapping
        &&& other.spawn_impl == self.spawn_impl
    }

    /// Everything apart from the spawn backend carried over unchanged.
    pub open spec fn same_apart_from_spawn_impl(
        self,
        spawn_options: SpawnOptions,
        expected_exit_status: Option<ExitStatus>,
        capture_stdout: bool,
        capture_stderr: bool,
        output_mapping: M,
    ) -> bool {
        &&& spawn_options == self.spawn_options
        &&& expected_exit_status == self.expected_exit_status
        &&& capture_stdout == self.capture_stdout
        &&& capture_stderr == self.capture_stderr
        &&& output_mapping == self.output_mapping
    }
}

impl<M> Command<M, UnconfiguredSpawner> where M: OutputMapping {
    /// A command for the given program with the given output mapping.
    ///
    /// The mapping's capture needs are read here, once, and frozen into the
    /// spawn flags. The command starts with the default expectation — the
    /// numeric exit code zero — an inheriting environment with no updates,
    /// and the placeholder backend, which fails every spawn until
    /// [`Command::with_spawn_impl`] installs a real or scripted one.
    pub fn new(program: String, output_mapping: M) -> (r: Command<M, UnconfiguredSpawner>)
        ensures
            r.spawn_options@.program == program@,
            r.spawn_options@.arguments == Seq::<Seq<char>>::empty(),
            r.spawn_options@.env_builder.inherit_env == true,
            r.spawn_options@.env_builder.updates == Map::<Seq<char>, env::EnvUpdateView>::empty(),
            r.spawn_options@.working_directory_override is None,
            r.spawn_options@.custom_stdout_setup is None,
            r.spawn_options@.custom_stderr_setup is None,
            r.spawn_options@.custom_stdin_setup is None,
            r.expected_exit_status == Some(ExitStatus::Code(0)),
            r.capture_stdout == output_mapping.needs_stdout_spec(),
            r.capture_stderr == output_mapping.needs_stderr_spec(),
            r.output_mapping == output_mapping,
            r.spawn_impl == UnconfiguredSpawner,
    {
        let capture_stdout = output_mapping.needs_captured_stdout();
        let capture_stderr = output_mapping.needs_captured_stderr();
        Command {
            spawn_options: SpawnOptions::new(program),
            expected_exit_status: Some(ExitStatus::Code(0)),
            capture_stdout,
            capture_stderr,
            output_mapping,
            spawn_impl: UnconfiguredSpawner,
        }
    }
}

impl<M, S> Command<M, S> where M: OutputMapping, S: Spawner {
    /// Returns this command with the given arguments appended, in order, to
    /// the end of the argument list.
    pub fn with_arguments(self, arguments: Vec<String>) -> (r: Command<M, S>)
        ensures
            self.same_apart_from_options(r),
            r.spawn_options@ == (spawn::SpawnOptionsView {
                arguments: self.spawn_options@.arguments + arguments.deep_view(),
                ..self.spawn_options@
            }),
    {
        let mut this = self;
        let mut arguments = arguments;
        let ghost added = arguments.deep_view();
        this.spawn_options.arguments.append(&mut arguments);
        proof {
            assert(this.spawn_options@.arguments =~= self.spawn_options@.arguments + added);
        }
        this
    }

    /// Returns this command with one argument appended to the end of the
    /// argument list.
    pub fn with_argument(self, argument: String) -> (r: Command<M, S>)
        ensures
            self.same_apart_from_options(r),
            r.spawn_options@ == (spawn::SpawnOptionsView {
                arguments: self.spawn_options@.arguments.push(argument@),
                ..self.spawn_options@
            }),
    {
        let mut this = self;
        this.spawn_options.arguments.push(argument);
        proof {
            assert(this.spawn_options@.arguments =~= self.spawn_options@.arguments.push(
                argument@,
            ));
        }
        this
    }

    /// Returns this command with the given key/update pairs staged in order;
    /// a later pair (and a pair for an already staged key) wins.
    pub fn with_env_updates(self, updates: Vec<(String, env::EnvUpdate)>) -> (r: Command<M, S>)
        ensures
            self.same_apart_from_options(r),
            r.spawn_options@ == (spawn::SpawnOptionsView {
                env_builder: (env::EnvBuilderView {
                    updates: env::staged_after(
                        self.spawn_options@.env_builder.updates,
                        env::entries_view(updates@),
                    ),
                    ..self.spawn_options@.env_builder
                }),
                ..self.spawn_options@
            }),
    {
        let Command {
            spawn_options,
            expected_exit_status,
            capture_stdout,
            capture_stderr,
            output_mapping,
            spawn_impl,
        } = self;
        let SpawnOptions {
            program,
            arguments,
            env_builder,
            working_directory_override,
            custom_stdout_setup,
            custom_stderr_setup,
            custom_stdin_setup,
        } = spawn_options;
        let env_builder = env_builder.insert_updates(updates);
        Command {
            spawn_options: SpawnOptions {
                program,
                arguments,
                env_builder,
                working_directory_override,
                custom_stdout_setup,
                custom_stderr_setup,
                custom_stdin_setup,
            },
            expected_exit_status,
            capture_stdout,
            capture_stderr,
            output_mapping,
            spawn_impl,
        }
    }

    /// Returns this command with one environment update staged; an earlier
    /// update for the same key is replaced.
    pub fn with_env_update(self, key: String, update: env::EnvUpdate) -> (r: Command<M, S>)
        ensures
            self.same_apart_from_options(r),
            r.spawn_options@ == (spawn::SpawnOptionsView {
                env_builder: (env::EnvBuilderView {
                    updates: self.spawn_options@.env_builder.updates.insert(key@, update@),
                    ..self.spawn_options@.env_builder
                }),
                ..self.spawn_options@
            }),
    {
        let Command {
            spawn_options,
            expected_exit_status,
            capture_stdout,
            capture_stderr,
            output_mapping,
            spawn_impl,
        } = self;
        let SpawnOptions {
            program,
            arguments,
            env_builder,
            working_directory_override,
            custom_stdout_setup,
            custom_stderr_setup,
            custom_stdin_setup,
        } = spawn_options;
        let env_builder = env_builder.insert_update(key, update);
        Command {
            spawn_options: SpawnOptions {
                program,
                arguments,
                env_builder,
                working_directory_override,
                custom_stdout_setup,
                custom_stderr_setup,
                custom_stdin_setup,
            },
            expected_exit_status,
            capture_stdout,
            capture_stderr,
            output_mapping,
            spawn_impl,
        }
    }

    /// Returns this command with the environment-inheritance flag replaced;
    /// see [`env::EnvBuilder`] for what inheritance means at resolution time.
    pub fn with_inherit_env(self, inherit_env: bool) -> (r: Command<M, S>)
        ensures
            self.same_apart_from_options(r),
            r.spawn_options@ == (spawn::SpawnOptionsView {
                env_builder: (env::EnvBuilderView {
                    inherit_env,
                    ..self.spawn_options@.env_builder
                }),
                ..self.spawn_options@
            }),
    {
        let Command {
            spawn_options,
            expected_exit_status,
            capture_stdout,
            capture_stderr,
            output_mapping,
            spawn_impl,
        } = self;
        let SpawnOptions {
            program,
            arguments,
            env_builder,
            working_directory_override,
            custom_stdout_setup,
            custom_stderr_setup,
            custom_stdin_setup,
        } = spawn_options;
        let env_builder = env_builder.set_inherit_env(inherit_env);
        Command {
            spawn_options: SpawnOptions {
                program,
                arguments,
                env_builder,
                working_directory_override,
                custom_stdout_setup,
                custom_stderr_setup,
                custom_stdin_setup,
            },
            expected_exit_status,
            capture_stdout,
            capture_stderr,
            output_mapping,
            spawn_impl,
        }
    }

    /// Replaces the working-directory override; `None` lets the child inherit
    /// the working directory of the spawning process.
    pub fn with_working_directory_override(self, working_directory_override: Option<String>) -> (r:
        Command<M, S>)
        ensures
            self.same_apart_from_options(r),
            r.spawn_options@ == (spawn::SpawnOptionsView {
                working_directory_override: working_directory_override.deep_view(),
                ..self.spawn_options@
            }),
    {
        let mut this = self;
        this.spawn_options.working_directory_override = working_directory_override;
        this
    }

    /// Sets which exit status counts as successful. This (re-)enables the
    /// exit-status check even if it was disabled before.
    pub fn with_expected_exit_status(self, expected_exit_status: ExitStatus) -> (r: Command<M, S>)
        ensures
            r == (Command { expected_exit_status: Some(expected_exit_status), ..self }),
    {
        let mut this = self;
        this.expected_exit_status = Some(expected_exit_status);
        this
    }

    /// Disables the exit-status check; the output mapping then sees the
    /// terminal record of every completed run, whatever its status.
    pub fn without_expected_exit_status(self) -> (r: Command<M, S>)
        ensures
            r == (Command { expected_exit_status: None::<ExitStatus>, ..self }),
    {
        let mut this = self;
        this.expected_exit_status = None;
        this
    }

    /// Sets a custom stdout pipe setup; ignored whenever the mapping declared
    /// stdout as needing capture, the capture taking precedence.
    pub fn with_custom_stdout_setup(self, pipe_setup: pipe::PipeSetup) -> (r: Command<M, S>)
        ensures
            self.same_apart_from_options(r),
            r.spawn_options@ == (spawn::SpawnOptionsView {
                custom_stdout_setup: Some(pipe_setup),
                ..self.spawn_options@
            }),
    {
        let mut this = self;
        this.spawn_options.custom_stdout_setup = Some(pipe_setup);
        this
    }

    /// Removes any custom stdout pipe setup.
    pub fn without_custom_stdout_setup(self) -> (r: Command<M, S>)
        ensures
            self.same_apart_from_options(r),
            r.spawn_options@ == (spawn::SpawnOptionsView {
                custom_stdout_setup: None::<pipe::PipeSetup>,
                ..self.spawn_options@
            }),
    {
        let mut this = self;
        this.spawn_options.custom_stdout_setup = None;
        this
    }

    /// Sets a custom stderr pipe setup; ignored whenever the mapping declared
    /// stderr as needing capture, the capture taking precedence.
    pub fn with_custom_stderr_setup(self, pipe_setup: pipe::PipeSetup) -> (r: Command<M, S>)
        ensures
            self.same_apart_from_options(r),
            r.spawn_options@ == (spawn::SpawnOptionsView {
                custom_stderr_setup: Some(pipe_setup),
                ..self.spawn_options@
            }),
    {
        let mut this = self;
        this.spawn_options.custom_stderr_setup = Some(pipe_setup);
        this
    }

    /// Removes any custom stderr pipe setup.
    pub fn without_custom_stderr_setup(self) -> (r: Command<M, S>)
        ensures
            self.same_apart_from_options(r),
            r.spawn_options@ == (spawn::SpawnOptionsView {
                custom_stderr_setup: None::<pipe::PipeSetup>,
                ..self.spawn_options@
            }),
    {
        let mut this = self;
        this.spawn_options.custom_stderr_setup = None;
        this
    }

    /// Sets a custom stdin pipe setup.
    pub fn with_custom_stdin_setup(self, pipe_setup: pipe::PipeSetup) -> (r: Command<M, S>)
        ensures
            self.same_apart_from_options(r),
            r.spawn_options@ == (spawn::SpawnOptionsView {
                custom_stdin_setup: Some(pipe_setup),
                ..self.spawn_options@
            }),
    {
        let mut this = self;
        this.spawn_options.custom_stdin_setup = Some(pipe_setup);
        this
    }

    /// Removes any custom stdin pipe setup.
    pub fn without_custom_stdin_setup(self) -> (r: Command<M, S>)
        ensures
            self.same_apart_from_options(r),
            r.spawn_options@ == (spawn::SpawnOptionsView {
                custom_stdin_setup: None::<pipe::PipeSetup>,
                ..self.spawn_options@
            }),
    {
        let mut this = self;
        this.spawn_options.custom_stdin_setup = None;
        this
    }

    /// Replaces the spawn backend; the primary seam for substituting a
    /// scripted backend in tests, or for installing the embedding
    /// application's OS backend.
    pub fn with_spawn_impl<S2: Spawner>(self, spawn_impl: S2) -> (r: Command<M, S2>)
        ensures
            r == (Command {
                spawn_options: self.spawn_options,
                expected_exit_status: self.expected_exit_status,
                capture_stdout: self.capture_stdout,
                capture_stderr: self.capture_stderr,
                output_mapping: self.output_mapping,
                spawn_impl,
            }),
    {
        let Command {
            spawn_options,
            expected_exit_status,
            capture_stdout,
            capture_stderr,
            output_mapping,
            spawn_impl: _,
        } = self;
        Command {
            spawn_options,
            expected_exit_status,
            capture_stdout,
            capture_stderr,
            output_mapping,
            spawn_impl,
        }
    }

    /// Short form for installing [`mock::mock_result`] as the backend: the
    /// run's outcome is decided by the given repeatable script.
    pub fn with_mock_result<F>(self, func: F) -> (r: Command<M, mock::MockResultSpawn<F>>) where
        F: Fn(SpawnOptions, bool, bool) -> Result<ExecResult, IoError>,

        ensures
            self.same_apart_from_spawn_impl(r.spawn_options, r.expected_exit_status, r.capture_stdout, r.capture_stderr, r.output_mapping),
            r.spawn_impl.func == func,
    {
        self.with_spawn_impl(mock::mock_result(func))
    }

    /// Short form for installing [`mock::mock_result_once`] as the backend:
    /// the run's outcome is decided by the given single-use script.
    pub fn with_mock_result_once<F>(self, func: F) -> (r: Command<M, mock::MockResultSpawn<F>>) where
        F: FnOnce(SpawnOptions, bool, bool) -> Result<ExecResult, IoError>,

        ensures
            self.same_apart_from_spawn_impl(r.spawn_options, r.expected_exit_status, r.capture_stdout, r.capture_stderr, r.output_mapping),
            r.spawn_impl.func == func,
    {
        self.with_spawn_impl(mock::mock_result_once(func))
    }

    /// Returns true when the frozen spawn flags will have stdout captured,
    /// which is what the mapping declared at construction.
    pub fn will_capture_stdout(&self) -> (r: bool)
        ensures
            r == self.capture_stdout,
    {
        self.capture_stdout
    }

    /// Returns true when the frozen spawn flags will have stderr captured,
    /// which is what the mapping declared at construction.
    pub fn will_capture_stderr(&self) -> (r: bool)
        ensures
            r == self.capture_stderr,
    {
        self.capture_stderr
    }
}

impl<M, S> Command<M, S> where
    M: OutputMapping,
    S: Spawner,
    M::Error: From<IoError> + From<UnexpectedExitStatus>,
 {
    /// The child that spawning this command packages a handle into.
    pub open spec fn child_of(self, handle: S::Handle) -> Child<M, S::Handle> {
        Child {
            expected_exit_status: self.expected_exit_status,
            output_mapping: self.output_mapping,
            child: handle,
        }
    }

    /// What running this command demands: the backend accepts the spawn, and
    /// every child it can produce can be awaited.
    pub open spec fn run_requires(self) -> bool {
        &&& obeys_command_error::<M::Error>()
        &&& self.spawn_impl.spawn_req(self.spawn_options, self.capture_stdout, self.capture_stderr)
        &&& forall|handle: S::Handle|
            #[trigger] self.spawn_impl.spawn_ens(
                self.spawn_options,
                self.capture_stdout,
                self.capture_stderr,
                Ok(handle),
            ) ==> self.child_of(handle).wait_requires()
    }

    /// What holds of the outcome of running this command: a spawn failure is
    /// returned as the converted I/O error, before any child exists;
    /// otherwise the outcome is the awaited child's.
    pub open spec fn run_ensures(self, r: Result<M::Output, M::Error>) -> bool {
        exists|spawned: Result<S::Handle, IoError>|
            #[trigger] self.spawn_impl.spawn_ens(
                self.spawn_options,
                self.capture_stdout,
                self.capture_stderr,
                spawned,
            ) && match spawned {
                Ok(handle) => self.child_of(handle).wait_ensures(r),
                Err(e) => r == Err::<M::Output, M::Error>(io_error_into::<M::Error>(e)),
            }
    }

    /// Spawns the child process: hands the backend the spawn options together
    /// with the frozen capture flags, and packages the live handle with the
    /// expectation and the mapping. An I/O failure here is distinct from any
    /// later exit-status mismatch and is reported before a [`Child`] exists.
    pub fn spawn(self) -> (r: Result<Child<M, S::Handle>, IoError>)
        requires
            self.spawn_impl.spawn_req(
                self.spawn_options,
                self.capture_stdout,
                self.capture_stderr,
            ),
        ensures
            match r {
                Ok(child) => self.spawn_impl.spawn_ens(
                    self.spawn_options,
                    self.capture_stdout,
                    self.capture_stderr,
                    Ok(child.child),
                ) && child == self.child_of(child.child),
                Err(e) => self.spawn_impl.spawn_ens(
                    self.spawn_options,
                    self.capture_stdout,
                    self.capture_stderr,
                    Err(e),
                ),
            },
    {
        let Command {
            spawn_options,
            expected_exit_status,
            capture_stdout,
            capture_stderr,
            output_mapping,
            spawn_impl,
        } = self;
        match spawn_impl.spawn(spawn_options, capture_stdout, capture_stderr) {
            Ok(handle) => Ok(Child { expected_exit_status, output_mapping, child: handle }),
            Err(e) => Err(e),
        }
    }

    /// Runs the command to completion: spawn, then wait; returns the first
    /// failure encountered.
    pub fn run(self) -> (r: Result<M::Output, M::Error>)
        requires
            self.run_requires(),
        ensures
            self.run_ensures(r),
    {
        match self.spawn() {
            Ok(child) => child.wait(),
            Err(e) => Err(M::Error::from(e)),
        }
    }
}

impl<M, H> Child<M, H> where
    M: OutputMapping,
    H: ChildHandle,
    M::Error: From<IoError> + From<UnexpectedExitStatus>,
 {
    /// How the outcome of waiting follows from the handle's terminal record:
    /// an I/O failure is converted and returned; a completed run whose status
    /// misses the configured expectation becomes an [`UnexpectedExitStatus`]
    /// error carrying both statuses, and the mapping is never consulted;
    /// otherwise the mapping decides, per its own contract.
    pub open spec fn wait_decides(
        self,
        awaited: Result<ExecResult, IoError>,
        r: Result<M::Output, M::Error>,
    ) -> bool {
        match awaited {
            Ok(result) => match self.expected_exit_status {
                Some(expected) => if result.exit_status == expected {
                    self.output_mapping.map_ens(result, r)
                } else {
                    r == Err::<M::Output, M::Error>(
                        status_error_into::<M::Error>(
                            UnexpectedExitStatus { got: result.exit_status, expected },
                        ),
                    )
                },
                None => self.output_mapping.map_ens(result, r),
            },
            Err(e) => r == Err::<M::Output, M::Error>(io_error_into::<M::Error>(e)),
        }
    }

    /// What awaiting this child demands: the handle can be awaited, and the
    /// mapping accepts every record that both can come out of the handle and
    /// passes the status check.
    pub open spec fn wait_requires(self) -> bool {
        &&& obeys_command_error::<M::Error>()
        &&& self.child.wait_req()
        &&& forall|result: ExecResult|
            #[trigger] self.child.wait_ens(Ok(result)) && status_accepted(
                self.expected_exit_status,
                result.exit_status,
            ) ==> self.output_mapping.map_req(result)
    }

    /// What holds of the outcome of awaiting this child, over every terminal
    /// record the handle can produce.
    pub open spec fn wait_ensures(self, r: Result<M::Output, M::Error>) -> bool {
        exists|awaited: Result<ExecResult, IoError>|
            #[trigger] self.child.wait_ens(awaited) && self.wait_decides(awaited, r)
    }

    /// Awaits the exit of the child: obtains the terminal record, checks the
    /// configured exit-status expectation, and only then hands the record to
    /// the output mapping.
    pub fn wait(self) -> (r: Result<M::Output, M::Error>)
        requires
            self.wait_requires(),
        ensures
            self.wait_ensures(r),
    {
        let Child { expected_exit_status, output_mapping, child } = self;
        let awaited = child.wait_with_output();
        match awaited {
            Ok(result) => {
                match &expected_exit_status {
                    Some(expected) => {
                        if result.exit_status != *expected {
                            return Err(
                                M::Error::from(
                                    UnexpectedExitStatus {
                                        got: result.exit_status,
                                        expected: *expected,
                                    },
                                ),
                            );
                        }
                    },
                    None => {},
                }
                output_mapping.map_output(result)
            },
            Err(e) => Err(M::Error::from(e)),
        }
    }

    /// Takes out the process-side stdout pipe end, if stdout was set up as a
    /// custom (non-capturing) pipe and not yet taken; a stream reserved for
    /// capture is never retrievable.
    pub fn take_stdout(&mut self) -> (r: Option<H::StdoutPipe>)
        ensures
            (r is Some) == old(self).child.has_custom_stdout(),
            !final(self).child.has_custom_stdout(),
            final(self).child.has_custom_stderr() == old(self).child.has_custom_stderr(),
            final(self).child.has_custom_stdin() == old(self).child.has_custom_stdin(),
            final(self).child.wait_req() == old(self).child.wait_req(),
            forall|res: Result<ExecResult, IoError>|
                #[trigger] final(self).child.wait_ens(res) == old(self).child.wait_ens(res),
            final(self).expected_exit_status == old(self).expected_exit_status,
            final(self).output_mapping == old(self).output_mapping,
    {
        self.child.take_stdout()
    }

    /// Takes out the process-side stderr pipe end; see
    /// [`Child::take_stdout`].
    pub fn take_stderr(&mut self) -> (r: Option<H::StderrPipe>)
        ensures
            (r is Some) == old(self).child.has_custom_stderr(),
            !final(self).child.has_custom_stderr(),
            final(self).child.has_custom_stdout() == old(self).child.has_custom_stdout(),
            final(self).child.has_custom_stdin() == old(self).child.has_custom_stdin(),
            final(self).child.wait_req() == old(self).child.wait_req(),
            forall|res: Result<ExecResult, IoError>|
                #[trigger] final(self).child.wait_ens(res) == old(self).child.wait_ens(res),
            final(self).expected_exit_status == old(self).expected_exit_status,
            final(self).output_mapping == old(self).output_mapping,
    {
        self.child.take_stderr()
    }

    /// Takes out the process-side stdin pipe end, if one was set up and not
    /// yet taken.
    pub fn take_stdin(&mut self) -> (r: Option<H::StdinPipe>)
        ensures
            (r is Some) == old(self).child.has_custom_stdin(),
            !final(self).child.has_custom_stdin(),
            final(self).child.has_custom_stdout() == old(self).child.has_custom_stdout(),
            final(self).child.has_custom_stderr() == old(self).child.has_custom_stderr(),
            final(self).child.wait_req() == old(self).child.wait_req(),
            forall|res: Result<ExecResult, IoError>|
                #[trigger] final(self).child.wait_ens(res) == old(self).child.wait_ens(res),
            final(self).expected_exit_status == old(self).expected_exit_status,
            final(self).output_mapping == old(self).output_mapping,
    {
        self.child.take_stdin()
    }
}

/// Law: when the awaited run completed with a status other than the
/// configured expectation, waiting fails with the unexpected-exit-status
/// error carrying exactly the actual and the expected status — the output
/// mapping is not consulted. Stated for a scripted handle, whose terminal
/// record is pinned.
pub proof fn lemma_status_mismatch_is_status_error<M>(
    child: Child<M, mock::MockResult>,
    result: ExecResult,
    expected: ExitStatus,
    r: Result<M::Output, M::Error>,
) where M: OutputMapping, M::Error: From<IoError> + From<UnexpectedExitStatus>
    requires
        child.child.result == Ok::<ExecResult, IoError>(result),
        child.expected_exit_status == Some(expected),
        result.exit_status != expected,
        child.wait_ensures(r),
    ensures
        r == Err::<M::Output, M::Error>(
            status_error_into::<M::Error>(
                UnexpectedExitStatus { got: result.exit_status, expected },
            ),
        ),
{
    let awaited = choose|awaited: Result<ExecResult, IoError>|
        #[trigger] child.child.wait_ens(awaited) && child.wait_decides(awaited, r);
    assert(awaited == Ok::<ExecResult, IoError>(result));
}

/// Law: with the expectation disabled, no unexpected-exit-status error can
/// arise from the pipeline; the mapping receives the awaited record whatever
/// its status, and the outcome is the mapping's. Stated for a scripted
/// handle, whose terminal record is pinned.
pub proof fn lemma_disabled_expectation_reaches_mapping<M>(
    child: Child<M, mock::MockResult>,
    result: ExecResult,
    r: Result<M::Output, M::Error>,
) where M: OutputMapping, M::Error: From<IoError> + From<UnexpectedExitStatus>
    requires
        child.child.result == Ok::<ExecResult, IoError>(result),
        child.expected_exit_status is None,
        child.wait_ensures(r),
    ensures
        child.output_mapping.map_ens(result, r),
{
    let awaited = choose|awaited: Result<ExecResult, IoError>|
        #[trigger] child.child.wait_ens(awaited) && child.wait_decides(awaited, r);
    assert(awaited == Ok::<ExecResult, IoError>(result));
}

/// Law: for a command whose frozen capture flags match the mapping's
/// declared needs — as `Command::new` freezes them — and whose scripted
/// backend honors the capture flags it is handed, every record the handle
/// can deliver carries stdout exactly when the mapping needs stdout and
/// stderr exactly when it needs stderr, for each of the four combinations.
pub proof fn lemma_capture_needs_reach_mapping<M, F>(
    cmd: Command<M, mock::MockResultSpawn<F>>,
    handle: mock::MockResult,
    result: ExecResult,
) where
    M: OutputMapping,
    M::Error: From<IoError> + From<UnexpectedExitStatus>,
    F: FnOnce(SpawnOptions, bool, bool) -> Result<ExecResult, IoError>,

    requires
        cmd.capture_stdout == cmd.output_mapping.needs_stdout_spec(),
        cmd.capture_stderr == cmd.output_mapping.needs_stderr_spec(),
        forall|options: SpawnOptions, stdout_flag: bool, stderr_flag: bool, out: Result<
            ExecResult,
            IoError,
        >|
            #[trigger] call_ensures(cmd.spawn_impl.func, (options, stdout_flag, stderr_flag), out)
                ==> match out {
                Ok(res) => (res.stdout is Some) == stdout_flag && (res.stderr is Some)
                    == stderr_flag,
                Err(_) => true,
            },
        cmd.spawn_impl.spawn_ens(
            cmd.spawn_options,
            cmd.capture_stdout,
            cmd.capture_stderr,
            Ok(handle),
        ),
        handle.result == Ok::<ExecResult, IoError>(result),
    ensures
        (result.stdout is Some) == cmd.output_mapping.needs_stdout_spec(),
        (result.stderr is Some) == cmd.output_mapping.needs_stderr_spec(),
{
}

/// Law: a command whose backend fails the spawn itself fails with exactly
/// that I/O error, converted — before any child exists, and independently of
/// everything on the wait path. Together with
/// [`lemma_wait_failure_is_io_error`] this keeps a spawn failure and a wait
/// failure apart.
pub proof fn lemma_spawn_failure_is_io_error<M, F, H>(
    cmd: Command<M, mock::MockSpawn<F, H>>,
    e: IoError,
    r: Result<M::Output, M::Error>,
) where
    M: OutputMapping,
    M::Error: From<IoError> + From<UnexpectedExitStatus>,
    H: ChildHandle,
    F: FnOnce(SpawnOptions, bool, bool) -> Result<H, IoError>,

    requires
        obeys_command_error::<M::Error>(),
        forall|out: Result<H, IoError>|
            #[trigger] call_ensures(
                cmd.spawn_impl.func,
                (cmd.spawn_options, cmd.capture_stdout, cmd.capture_stderr),
                out,
            ) ==> out == Err::<H, IoError>(e),
        cmd.run_ensures(r),
    ensures
        r == Err::<M::Output, M::Error>(io_error_into::<M::Error>(e)),
{
    let spawned = choose|spawned: Result<H, IoError>|
        #[trigger] cmd.spawn_impl.spawn_ens(
            cmd.spawn_options,
            cmd.capture_stdout,
            cmd.capture_stderr,
            spawned,
        ) && match spawned {
            Ok(handle) => cmd.child_of(handle).wait_ensures(r),
            Err(err) => r == Err::<M::Output, M::Error>(io_error_into::<M::Error>(err)),
        };
    assert(spawned == Err::<H, IoError>(e));
}

/// Law: a child whose awaited run fails with an I/O error fails with exactly
/// that error, converted — the mapping is not consulted. Stated for a
/// scripted handle, whose outcome is pinned.
pub proof fn lemma_wait_failure_is_io_error<M>(
    child: Child<M, mock::MockResult>,
    e: IoError,
    r: Result<M::Output, M::Error>,
) where M: OutputMapping, M::Error: From<IoError> + From<UnexpectedExitStatus>
    requires
        child.child.result == Err::<ExecResult, IoError>(e),
        child.wait_ensures(r),
    ensures
        r == Err::<M::Output, M::Error>(io_error_into::<M::Error>(e)),
{
    let awaited = choose|awaited: Result<ExecResult, IoError>|
        #[trigger] child.child.wait_ens(awaited) && child.wait_decides(awaited, r);
    assert(awaited == Err::<ExecResult, IoError>(e));
}

} // verus!
