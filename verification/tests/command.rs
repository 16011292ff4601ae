use std::sync::atomic::AtomicBool;
use std::sync::atomic::Ordering;
use std::sync::Arc;

use mapped_command::mock::MockResult;
use mapped_command::mock::MockResultFn;
use mapped_command::mock::MockSpawn;
use mapped_command::output_mapping::CommandExecutionError;
use mapped_command::output_mapping::ReturnNothing;
use mapped_command::output_mapping::ReturnStderr;
use mapped_command::output_mapping::ReturnStdout;
use mapped_command::output_mapping::ReturnStdoutAndErr;
use mapped_command::output_mapping::ReturnStdoutString;
use mapped_command::Command;
use mapped_command::ExecResult;
use mapped_command::ExitStatus;
use mapped_command::IoError;
use mapped_command::IoErrorKind;
use mapped_command::OpaqueOsExitStatus;
use mapped_command::pipe::PipeSetup;
use mapped_command::OutputMapping;
use mapped_command::UnexpectedExitStatus;

#[test]
fn comp_when_creating_command_different_capture_modes_can_be_used() {
    Command::new("foo".to_owned(), ReturnNothing);
    Command::new("foo".to_owned(), ReturnStdout);
    Command::new("foo".to_owned(), ReturnStderr);
    Command::new("foo".to_owned(), ReturnStdoutAndErr);
}

#[test]
fn default_arguments_are_empty() {
    let cmd = Command::new("foo".to_owned(), ReturnNothing);
    assert!(cmd.spawn_options.arguments.is_empty());
}

#[test]
fn new_arguments_are_appended_in_call_order() {
    let cmd = Command::new("foo".to_owned(), ReturnNothing)
        .with_arguments(vec!["a".to_owned(), "b".to_owned()])
        .with_argument("c".to_owned())
        .with_arguments(vec!["d".to_owned()]);
    assert_eq!(
        cmd.spawn_options.arguments,
        vec!["a".to_owned(), "b".to_owned(), "c".to_owned(), "d".to_owned()]
    );
}

#[test]
fn run_can_lead_to_and_io_error() {
    let res = Command::new("foo".to_owned(), ReturnNothing)
        .with_mock_result(|_, _, _| Err(IoError::new(IoErrorKind::Other, "random".to_owned())))
        .run();

    res.unwrap_err();
}

#[test]
fn return_no_error_if_the_command_has_zero_exit_status() {
    let res = Command::new("foo".to_owned(), ReturnNothing)
        .with_mock_result(move |_, _, _| {
            Ok(ExecResult {
                exit_status: 0.into(),
                ..Default::default()
            })
        })
        .run();

    res.unwrap();
}

#[test]
fn can_spawn_and_then_await_outputs() {
    let child = Command::new("foo".to_owned(), ReturnStdoutString)
        .with_mock_result(move |_, _, _| {
            Ok(ExecResult {
                exit_status: 0.into(),
                stdout: Some("hy".to_owned().into_bytes()),
                ..Default::default()
            })
        })
        .spawn()
        .unwrap();

    let res = child.wait().unwrap();
    assert_eq!(res, "hy");
}

#[test]
fn spawn_failure_and_wait_failure_are_seperate() {
    Command::new("foo".to_owned(), ReturnNothing)
        .with_spawn_impl(MockSpawn::new(|_, _, _| -> Result<MockResult, IoError> {
            Err(IoError::new(IoErrorKind::Other, "failed spawn".to_owned()))
        }))
        .spawn()
        .err()
        .unwrap();

    let child = Command::new("foo".to_owned(), ReturnNothing)
        .with_spawn_impl(MockSpawn::new(|_, _, _| {
            Ok(MockResult::new(Err(IoError::new(
                IoErrorKind::Other,
                "failed wait".to_owned(),
            ))))
        }))
        .spawn()
        .unwrap();

    child.wait().unwrap_err();
}

#[test]
fn spawn_already_spawns_wait_only_awaits_completion() {
    let is_running = Arc::new(AtomicBool::new(false));
    let child = Command::new("foo".to_owned(), ReturnNothing)
        .with_spawn_impl({
            let is_running = is_running.clone();
            MockSpawn::new(move |_, _, _| {
                let is_running = is_running.clone();
                is_running.store(true, Ordering::SeqCst);
                Ok(MockResultFn::new(move || {
                    is_running.store(false, Ordering::SeqCst);
                    Ok(ExecResult {
                        exit_status: 0.into(),
                        ..Default::default()
                    })
                }))
            })
        })
        .spawn()
        .unwrap();

    assert_eq!(is_running.load(Ordering::SeqCst), true);

    let () = child.wait().unwrap();

    assert_eq!(is_running.load(Ordering::SeqCst), false);
}

#[derive(Debug)]
enum MyError {
    BarFoot,
    Io(IoError),
    UnexpectedExitStatus(UnexpectedExitStatus),
}

impl From<IoError> for MyError {
    fn from(e: IoError) -> MyError {
        MyError::Io(e)
    }
}

impl From<UnexpectedExitStatus> for MyError {
    fn from(e: UnexpectedExitStatus) -> MyError {
        MyError::UnexpectedExitStatus(e)
    }
}

struct ReturnError;

impl OutputMapping for ReturnError {
    type Output = ();
    type Error = MyError;

    fn needs_captured_stdout(&self) -> bool {
        false
    }

    fn needs_captured_stderr(&self) -> bool {
        false
    }

    fn map_output(self, _result: ExecResult) -> Result<(), MyError> {
        Err(MyError::BarFoot)
    }
}

#[test]
fn allow_custom_errors() {
    let result: MyError = Command::new("foo".to_owned(), ReturnError)
        .with_mock_result(|_, _, _| {
            Ok(ExecResult {
                exit_status: 0.into(),
                ..Default::default()
            })
        })
        .run()
        .unwrap_err();

    assert!(matches!(result, MyError::BarFoot));
}

#[test]
fn returning_stdout_even_if_needs_captured_stdout_does_not_panic() {
    let _ = Command::new("foo".to_owned(), ReturnNothing)
        .without_expected_exit_status()
        .with_mock_result(|_, _, _| {
            Ok(ExecResult {
                exit_status: 1.into(),
                stdout: Some(Vec::new()),
                ..Default::default()
            })
        })
        .run();
}

#[test]
fn returning_stderr_even_if_needs_captured_stderr_does_not_panic() {
    let _ = Command::new("foo".to_owned(), ReturnNothing)
        .without_expected_exit_status()
        .with_mock_result(|_, _, _| {
            Ok(ExecResult {
                exit_status: 1.into(),
                stderr: Some(Vec::new()),
                ..Default::default()
            })
        })
        .run();
}

#[test]
fn by_default_no_explicit_working_directory_is_set() {
    let cmd = Command::new("foo".to_owned(), ReturnNothing);
    assert_eq!(cmd.spawn_options.working_directory_override.as_ref(), None);
}

#[test]
fn the_working_directory_can_be_changed() {
    let cmd = Command::new("foo".to_owned(), ReturnNothing)
        .with_working_directory_override(Some("/usr".to_owned()));
    assert_eq!(
        cmd.spawn_options.working_directory_override.as_deref(),
        Some("/usr")
    );
    let cmd = cmd.with_working_directory_override(None);
    assert_eq!(cmd.spawn_options.working_directory_override, None);
}

#[test]
fn by_default_the_expected_exit_status_is_0() {
    let cmd = Command::new("foo".to_owned(), ReturnNothing);
    assert_eq!(cmd.expected_exit_status.as_ref().unwrap(), &ExitStatus::from(0));
}

#[test]
fn by_default_exit_status_checking_is_enabled() {
    let cmd = Command::new("foo".to_owned(), ReturnNothing);
    assert_eq!(cmd.expected_exit_status.is_some(), true);
}

#[test]
fn setting_check_exit_status_to_false_disables_it() {
    Command::new("foo".to_owned(), ReturnNothing)
        .without_expected_exit_status()
        .with_mock_result(|_, _, _| {
            Ok(ExecResult {
                exit_status: 1.into(),
                ..Default::default()
            })
        })
        .run()
        .unwrap();
}

#[test]
fn you_can_expect_no_exit_status_to_be_returned() {
    let cmd = Command::new("foo".to_owned(), ReturnNothing).with_expected_exit_status(
        ExitStatus::OsSpecific(OpaqueOsExitStatus::target_specific_default()),
    );

    assert_eq!(
        cmd.expected_exit_status,
        Some(ExitStatus::OsSpecific(OpaqueOsExitStatus::target_specific_default()))
    );
}

#[test]
fn setting_the_expected_exit_status_will_enable_checking() {
    let cmd = Command::new("foo".to_owned(), ReturnNothing)
        .without_expected_exit_status()
        .with_expected_exit_status(ExitStatus::from(0));

    assert_eq!(cmd.expected_exit_status.is_some(), true);
}

#[test]
fn return_an_error_if_the_command_has_non_zero_exit_status() {
    let res = Command::new("foo".to_owned(), ReturnNothing)
        .with_mock_result(move |_, _, _| {
            Ok(ExecResult {
                exit_status: 3.into(),
                ..Default::default()
            })
        })
        .run();

    res.unwrap_err();
}

#[test]
fn replacing_the_expected_exit_status_causes_error_on_different_exit_status() {
    let res = Command::new("foo".to_owned(), ReturnNothing)
        .with_expected_exit_status(ExitStatus::from(5))
        .with_mock_result(move |_, _, _| {
            Ok(ExecResult {
                exit_status: 7.into(),
                ..Default::default()
            })
        })
        .run();

    match res {
        Err(CommandExecutionError::UnexpectedExitStatus(UnexpectedExitStatus {
            got,
            expected,
        })) => {
            assert_eq!(expected, ExitStatus::from(5));
            assert_eq!(got, ExitStatus::from(7));
        }
        _ => panic!("Unexpected Result: {:?}", res),
    }
}

#[test]
fn program_execution_can_be_replaced_with_an_callback() {
    let was_run = Arc::new(AtomicBool::new(false));
    let was_run_ = was_run.clone();
    let cmd = Command::new("some_cmd".to_owned(), ReturnStdoutAndErr).with_mock_result(
        move |options, capture_stdout, capture_stderr| {
            assert_eq!(capture_stdout, true);
            assert_eq!(capture_stderr, true);
            was_run_.store(true, Ordering::SeqCst);
            assert_eq!(&options.program, "some_cmd");
            Ok(ExecResult {
                exit_status: 0.into(),
                stdout: Some("result=12".to_owned().into_bytes()),
                stderr: Some(Vec::new()),
            })
        },
    );

    let res = cmd.run().unwrap();
    assert_eq!(was_run.load(Ordering::SeqCst), true);
    assert_eq!(&*res.stdout, "result=12".as_bytes());
    assert_eq!(&*res.stderr, "".as_bytes());
}

#[test]
fn a_fresh_command_has_no_backend_and_fails_to_spawn() {
    let err = Command::new("foo".to_owned(), ReturnNothing).spawn().err().unwrap();
    assert_eq!(err.kind, IoErrorKind::Unsupported);
}

#[test]
fn taking_pipes_from_a_scripted_child_yields_none() {
    let mut child = Command::new("foo".to_owned(), ReturnNothing)
        .with_mock_result(|_, _, _| {
            Ok(ExecResult {
                exit_status: 0.into(),
                ..Default::default()
            })
        })
        .spawn()
        .unwrap();
    assert!(child.take_stdout().is_none());
    assert!(child.take_stderr().is_none());
    assert!(child.take_stdin().is_none());
}

#[test]
fn default_exit_status_is_code_zero() {
    assert_eq!(ExitStatus::default(), ExitStatus::Code(0));
    assert_eq!(ExecResult::default().exit_status, ExitStatus::Code(0));
    let signal = ExitStatus::OsSpecific(OpaqueOsExitStatus::from_raw(9));
    assert!(!signal.successful());
    assert_eq!(signal.code(), None);
}

#[test]
fn custom_pipe_setups_can_be_set_and_cleared() {
    let cmd = Command::new("foo".to_owned(), ReturnNothing)
        .with_custom_stdout_setup(PipeSetup::Piped)
        .with_custom_stderr_setup(PipeSetup::Null)
        .with_custom_stdin_setup(PipeSetup::Inherit);
    assert_eq!(cmd.spawn_options.custom_stdout_setup, Some(PipeSetup::Piped));
    assert_eq!(cmd.spawn_options.custom_stderr_setup, Some(PipeSetup::Null));
    assert_eq!(cmd.spawn_options.custom_stdin_setup, Some(PipeSetup::Inherit));
    let cmd = cmd
        .without_custom_stdout_setup()
        .without_custom_stderr_setup()
        .without_custom_stdin_setup();
    assert_eq!(cmd.spawn_options.custom_stdout_setup, None);
    assert_eq!(cmd.spawn_options.custom_stderr_setup, None);
    assert_eq!(cmd.spawn_options.custom_stdin_setup, None);
}
