//! Scripted spawn backends and handles, for running the pipeline without an
//! operating system: a script is invoked with the resolved options and the
//! two capture flags and decides the outcome of the run.

use vstd::prelude::*;

use crate::spawn::ChildHandle;
use crate::spawn::SpawnOptions;
use crate::spawn::Spawner;
use crate::ExecResult;
use crate::IoError;

verus! {

/// A scripted live-process handle holding a fixed outcome: waiting returns
/// exactly the stored result. It has no pipes to take.
#[derive(Debug)]
pub struct MockResult {
    /// The outcome that waiting delivers.
    pub result: Result<ExecResult, IoError>,
}

impl MockResult {
    /// A handle whose wait delivers the given outcome.
    pub fn new(result: Result<ExecResult, IoError>) -> (r: MockResult)
        ensures
            r == (MockResult { result }),
    {
        MockResult { result }
    }
}

impl ChildHandle for MockResult {
    type StdoutPipe = ();

    type StderrPipe = ();

    type StdinPipe = ();

    open spec fn wait_req(&self) -> bool {
        true
    }

    open spec fn wait_ens(&self, r: Result<ExecResult, IoError>) -> bool {
        r == self.result
    }

    open spec fn has_custom_stdout(&self) -> bool {
        false
    }

    open spec fn has_custom_stderr(&self) -> bool {
        false
    }

    open spec fn has_custom_stdin(&self) -> bool {
        false
    }

    fn wait_with_output(self) -> (r: Result<ExecResult, IoError>) {
        self.result
    }

    fn take_stdout(&mut self) -> (r: Option<()>) {
        None
    }

    fn take_stderr(&mut self) -> (r: Option<()>) {
        None
    }

    fn take_stdin(&mut self) -> (r: Option<()>) {
        None
    }
}

/// A scripted live-process handle holding a script run at wait time: the
/// process "completes" when the handle is awaited. It has no pipes to take.
pub struct MockResultFn<F> {
    /// The script whose call decides the outcome of waiting.
    pub func: F,
}

impl<F> MockResultFn<F> where F: FnOnce() -> Result<ExecResult, IoError> {
    /// A handle whose wait runs the given script and delivers its outcome.
    pub fn new(func: F) -> (r: MockResultFn<F>)
        ensures
            r.func == func,
    {
        MockResultFn { func }
    }
}

impl<F> ChildHandle for MockResultFn<F> where F: FnOnce() -> Result<ExecResult, IoError> {
    type StdoutPipe = ();

    type StderrPipe = ();

    type StdinPipe = ();

    #[verifier::inline]
    open spec fn wait_req(&self) -> bool {
        call_requires(self.func, ())
    }

    #[verifier::inline]
    open spec fn wait_ens(&self, r: Result<ExecResult, IoError>) -> bool {
        call_ensures(self.func, (), r)
    }

    #[verifier::inline]
    open spec fn has_custom_stdout(&self) -> bool {
        false
    }

    #[verifier::inline]
    open spec fn has_custom_stderr(&self) -> bool {
        false
    }

    #[verifier::inline]
    open spec fn has_custom_stdin(&self) -> bool {
        false
    }

    fn wait_with_output(self) -> (r: Result<ExecResult, IoError>) {
        (self.func)()
    }

    fn take_stdout(&mut self) -> (r: Option<()>) {
        None
    }

    fn take_stderr(&mut self) -> (r: Option<()>) {
        None
    }

    fn take_stdin(&mut self) -> (r: Option<()>) {
        None
    }
}

/// A scripted backend over a script that produces the live handle itself:
/// the script sees the resolved options and the two capture flags and either
/// returns a handle (such as [`MockResult`] or [`MockResultFn`]) or fails the
/// spawn with an I/O error.
pub struct MockSpawn<F, H> {
    /// The script whose call decides the outcome of spawning.
    pub func: F,
    /// Pins down the handle type the script produces.
    pub handle_kind: core::marker::PhantomData<H>,
}

impl<F, H> MockSpawn<F, H> where
    H: ChildHandle,
    F: FnOnce(SpawnOptions, bool, bool) -> Result<H, IoError>,
 {
    /// A backend that spawns by running the given script.
    pub fn new(func: F) -> (r: MockSpawn<F, H>)
        ensures
            r.func == func,
    {
        MockSpawn { func, handle_kind: core::marker::PhantomData }
    }
}

impl<F, H> Spawner for MockSpawn<F, H> where
    H: ChildHandle,
    F: FnOnce(SpawnOptions, bool, bool) -> Result<H, IoError>,
 {
    type Handle = H;

    #[verifier::inline]
    open spec fn spawn_req(
        &self,
        options: SpawnOptions,
        capture_stdout: bool,
        capture_stderr: bool,
    ) -> bool {
        call_requires(self.func, (options, capture_stdout, capture_stderr))
    }

    #[verifier::inline]
    open spec fn spawn_ens(
        &self,
        options: SpawnOptions,
        capture_stdout: bool,
        capture_stderr: bool,
        r: Result<H, IoError>,
    ) -> bool {
        call_ensures(self.func, (options, capture_stdout, capture_stderr), r)
    }

    fn spawn(self, options: SpawnOptions, capture_stdout: bool, capture_stderr: bool) -> (r:
        Result<H, IoError>) {
        (self.func)(options, capture_stdout, capture_stderr)
    }
}

/// A scripted backend over a script that produces the run's outcome: the
/// script is invoked at spawn time with the resolved options and the two
/// capture flags; spawning itself always succeeds, and the scripted outcome —
/// an [`ExecResult`] or an I/O failure — is delivered when the child is
/// awaited.
pub struct MockResultSpawn<F> {
    /// The script whose call decides the outcome of the run.
    pub func: F,
}

impl<F> Spawner for MockResultSpawn<F> where
    F: FnOnce(SpawnOptions, bool, bool) -> Result<ExecResult, IoError>,
 {
    type Handle = MockResult;

    #[verifier::inline]
    open spec fn spawn_req(
        &self,
        options: SpawnOptions,
        capture_stdout: bool,
        capture_stderr: bool,
    ) -> bool {
        call_requires(self.func, (options, capture_stdout, capture_stderr))
    }

    #[verifier::inline]
    open spec fn spawn_ens(
        &self,
        options: SpawnOptions,
        capture_stdout: bool,
        capture_stderr: bool,
        r: Result<MockResult, IoError>,
    ) -> bool {
        scripted_outcome(self.func, options, capture_stdout, capture_stderr, r)
    }

    fn spawn(self, options: SpawnOptions, capture_stdout: bool, capture_stderr: bool) -> (r:
        Result<MockResult, IoError>) {
        Ok(MockResult::new((self.func)(options, capture_stdout, capture_stderr)))
    }
}

/// What spawning through a [`MockResultSpawn`] yields: spawning always
/// succeeds, and the handle holds an outcome the script can produce for the
/// given options and capture flags.
pub open spec fn scripted_outcome<F: FnOnce(SpawnOptions, bool, bool) -> Result<ExecResult, IoError>>(
    func: F,
    options: SpawnOptions,
    capture_stdout: bool,
    capture_stderr: bool,
    r: Result<MockResult, IoError>,
) -> bool {
    match r {
        Ok(handle) => call_ensures(func, (options, capture_stdout, capture_stderr), handle.result),
        Err(_) => false,
    }
}

/// A scripted backend holding one fixed outcome: spawning always succeeds,
/// and the handle it produces delivers exactly the stored outcome. Unlike the
/// script-carrying backends, it is generic over nothing, so its whole
/// behavior is transparent to callers' proofs.
#[derive(Debug)]
pub struct FixedResultSpawn {
    /// The outcome of the run.
    pub result: Result<ExecResult, IoError>,
}

impl FixedResultSpawn {
    /// A backend whose one run has the given outcome.
    pub fn new(result: Result<ExecResult, IoError>) -> (r: FixedResultSpawn)
        ensures
            r == (FixedResultSpawn { result }),
    {
        FixedResultSpawn { result }
    }
}

impl Spawner for FixedResultSpawn {
    type Handle = MockResult;

    open spec fn spawn_req(
        &self,
        options: SpawnOptions,
        capture_stdout: bool,
        capture_stderr: bool,
    ) -> bool {
        true
    }

    open spec fn spawn_ens(
        &self,
        options: SpawnOptions,
        capture_stdout: bool,
        capture_stderr: bool,
        r: Result<MockResult, IoError>,
    ) -> bool {
        r == Ok::<MockResult, IoError>(MockResult { result: self.result })
    }

    fn spawn(self, options: SpawnOptions, capture_stdout: bool, capture_stderr: bool) -> (r:
        Result<MockResult, IoError>) {
        Ok(MockResult { result: self.result })
    }
}

/// A backend that replaces process execution by the given repeatable script;
/// see [`MockResultSpawn`].
pub fn mock_result<F>(func: F) -> (r: MockResultSpawn<F>) where
    F: Fn(SpawnOptions, bool, bool) -> Result<ExecResult, IoError>,

    ensures
        r.func == func,
{
    MockResultSpawn { func }
}

/// A backend that replaces process execution by the given single-use script;
/// see [`MockResultSpawn`].
pub fn mock_result_once<F>(func: F) -> (r: MockResultSpawn<F>) where
    F: FnOnce(SpawnOptions, bool, bool) -> Result<ExecResult, IoError>,

    ensures
        r.func == func,
{
    MockResultSpawn { func }
}

} // verus!
