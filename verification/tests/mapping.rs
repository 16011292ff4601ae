use mapped_command::output_mapping::CommandExecutionError;
use mapped_command::output_mapping::CommandExecutionWithStringOutputError;
use mapped_command::output_mapping::MapStdoutString;
use mapped_command::output_mapping::ReturnStderrString;
use mapped_command::output_mapping::ReturnStdout;
use mapped_command::output_mapping::ReturnStdoutString;
use mapped_command::Command;
use mapped_command::ExecResult;
use mapped_command::ExitStatus;
use mapped_command::IoErrorKind;
use mapped_command::OutputMapping;
use mapped_command::UnexpectedExitStatus;

struct TestOutputMapping {
    capture_stdout: bool,
    capture_stderr: bool,
}

impl OutputMapping for TestOutputMapping {
    type Output = bool;
    type Error = CommandExecutionError;

    fn needs_captured_stdout(&self) -> bool {
        self.capture_stdout
    }

    fn needs_captured_stderr(&self) -> bool {
        self.capture_stderr
    }

    fn map_output(self, result: ExecResult) -> Result<bool, CommandExecutionError> {
        assert_eq!(result.stdout.is_some(), self.capture_stdout);
        assert_eq!(result.stderr.is_some(), self.capture_stderr);
        Ok(true)
    }
}

#[test]
fn line_splitting_run_yields_the_lines_of_stdout() {
    let res = Command::new(
        "ls".to_owned(),
        MapStdoutString::new(|out: String| {
            let lines = out.lines().map(Into::into).collect::<Vec<String>>();
            Ok(lines)
        }),
    )
    .with_mock_result(|_options, capture_stdout, capture_stderr| {
        assert_eq!(capture_stdout, true);
        assert_eq!(capture_stderr, false);
        Ok(ExecResult {
            exit_status: 0.into(),
            stdout: Some("foo\nbar\ndoor\n".to_owned().into_bytes()),
            ..Default::default()
        })
    })
    .run()
    .unwrap();

    assert_eq!(res, vec!["foo", "bar", "door"]);
}

#[test]
fn a_nonzero_status_under_the_default_expectation_is_an_error_and_skips_the_mapping() {
    let err = Command::new(
        "ls".to_owned(),
        MapStdoutString::new(|_out: String| -> Result<(), _> {
            panic!("the mapping must not be invoked");
        }),
    )
    .with_mock_result(|_options, _capture_stdout, _capture_stderr| {
        Ok(ExecResult {
            exit_status: 1.into(),
            stdout: Some("foo\nbar\ndoor\n".to_owned().into_bytes()),
            ..Default::default()
        })
    })
    .run()
    .unwrap_err();

    match err {
        CommandExecutionWithStringOutputError::UnexpectedExitStatus(UnexpectedExitStatus {
            got,
            expected,
        }) => {
            assert_eq!(got, ExitStatus::from(1));
            assert_eq!(expected, ExitStatus::from(0));
        }
        _ => panic!("unexpected error: {:?}", err),
    }
}

#[test]
fn disabling_the_expectation_hands_every_status_to_the_mapping() {
    let res = Command::new(
        "foo".to_owned(),
        TestOutputMapping {
            capture_stdout: false,
            capture_stderr: false,
        },
    )
    .without_expected_exit_status()
    .with_mock_result(|_, _, _| {
        Ok(ExecResult {
            exit_status: 23.into(),
            ..Default::default()
        })
    })
    .run()
    .unwrap();
    assert!(res);
}

#[test]
fn only_pass_stdout_stderr_to_map_output_if_return_settings_indicate_they_capture_it() {
    for capture_stdout in [false, true] {
        for capture_stderr in [false, true] {
            let res = Command::new(
                "foo".to_owned(),
                TestOutputMapping {
                    capture_stdout,
                    capture_stderr,
                },
            )
            .with_mock_result(move |_, _, _| {
                Ok(ExecResult {
                    exit_status: 0.into(),
                    stdout: if capture_stdout { Some(Vec::new()) } else { None },
                    stderr: if capture_stderr { Some(Vec::new()) } else { None },
                })
            })
            .run()
            .unwrap();
            assert!(res);
        }
    }
}

#[test]
fn command_provides_a_getter_to_check_if_stdout_and_err_will_likely_be_captured() {
    for capture_stdout in [false, true] {
        for capture_stderr in [false, true] {
            let cmd = Command::new(
                "foo".to_owned(),
                TestOutputMapping {
                    capture_stdout,
                    capture_stderr,
                },
            );
            assert_eq!(cmd.will_capture_stdout(), capture_stdout);
            assert!(cmd.spawn_options.custom_stdout_setup.is_none());
            assert_eq!(cmd.will_capture_stderr(), capture_stderr);
            assert!(cmd.spawn_options.custom_stderr_setup.is_none());
        }
    }
}

#[test]
fn capture_hints_are_available_in_the_callback() {
    for capture_stdout in [false, true] {
        for capture_stderr in [false, true] {
            Command::new(
                "foo".to_owned(),
                TestOutputMapping {
                    capture_stdout,
                    capture_stderr,
                },
            )
            .with_mock_result(move |_, capture_stdout_hint, capture_stderr_hint| {
                assert_eq!(capture_stdout_hint, capture_stdout);
                assert_eq!(capture_stderr_hint, capture_stderr);
                Ok(ExecResult {
                    exit_status: 0.into(),
                    stdout: if capture_stdout_hint { Some(Vec::new()) } else { None },
                    stderr: if capture_stderr_hint { Some(Vec::new()) } else { None },
                })
            })
            .run()
            .unwrap();
        }
    }
}

#[test]
fn multibyte_stdout_is_decoded_as_utf8_text() {
    let res = Command::new("foo".to_owned(), ReturnStdoutString)
        .with_mock_result(|_, _, _| {
            Ok(ExecResult {
                exit_status: 0.into(),
                stdout: Some(vec![0xC3, 0xA9, 0x21]),
                ..Default::default()
            })
        })
        .run()
        .unwrap();
    assert_eq!(res, "\u{e9}!");
}

#[test]
fn invalid_utf8_stdout_is_a_mapping_error_carrying_the_bytes() {
    let err = Command::new("foo".to_owned(), ReturnStdoutString)
        .with_mock_result(|_, _, _| {
            Ok(ExecResult {
                exit_status: 0.into(),
                stdout: Some(vec![0xC3, 0x28]),
                ..Default::default()
            })
        })
        .run()
        .unwrap_err();
    match err {
        CommandExecutionWithStringOutputError::Utf8Error(e) => {
            assert_eq!(e.bytes, vec![0xC3, 0x28]);
        }
        _ => panic!("unexpected error: {:?}", err),
    }
}

#[test]
fn invalid_utf8_stderr_is_a_mapping_error_carrying_the_bytes() {
    let err = Command::new("foo".to_owned(), ReturnStderrString)
        .with_mock_result(|_, _, _| {
            Ok(ExecResult {
                exit_status: 0.into(),
                stderr: Some(vec![0xFF]),
                ..Default::default()
            })
        })
        .run()
        .unwrap_err();
    match err {
        CommandExecutionWithStringOutputError::Utf8Error(e) => {
            assert_eq!(e.bytes, vec![0xFF]);
        }
        _ => panic!("unexpected error: {:?}", err),
    }
}

#[test]
fn a_needed_stream_that_was_not_captured_is_reported_not_panicked_on() {
    let err = Command::new("foo".to_owned(), ReturnStdout)
        .with_mock_result(|_, _, _| {
            Ok(ExecResult {
                exit_status: 0.into(),
                stdout: None,
                ..Default::default()
            })
        })
        .run()
        .unwrap_err();
    match err {
        CommandExecutionError::Io(e) => {
            assert_eq!(e.kind, IoErrorKind::InvalidInput);
            assert_eq!(e.message, "stdout was not captured");
        }
        _ => panic!("unexpected error: {:?}", err),
    }
}

#[test]
fn a_missing_stream_under_a_text_mapping_is_an_io_error() {
    let err = Command::new("foo".to_owned(), ReturnStdoutString)
        .with_mock_result(|_, _, _| {
            Ok(ExecResult {
                exit_status: 0.into(),
                stdout: None,
                ..Default::default()
            })
        })
        .run()
        .unwrap_err();
    match err {
        CommandExecutionWithStringOutputError::Io(e) => {
            assert_eq!(e.kind, IoErrorKind::InvalidInput);
            assert_eq!(e.message, "stdout was not captured");
        }
        _ => panic!("unexpected error: {:?}", err),
    }
}
