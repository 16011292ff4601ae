use mapped_command::checked::convert_result;
use mapped_command::checked::Error;
use mapped_command::checked::Output;
use mapped_command::checked::RawOutput;
use mapped_command::checked::StatusError;
use mapped_command::checked::StatusErrorWithOutput;
use mapped_command::ExitStatus;
use mapped_command::IoError;
use mapped_command::IoErrorKind;

fn ok_status() -> ExitStatus {
    ExitStatus::from(0)
}

fn err_status() -> ExitStatus {
    ExitStatus::from(2)
}

fn create_output(status: ExitStatus) -> RawOutput {
    RawOutput {
        status,
        stdout: vec![1, 2, 3],
        stderr: vec![1, 2, 3],
    }
}

#[test]
fn stati_are_as_they_should() {
    assert!(ok_status().successful());
    assert!(!err_status().successful());
    assert_eq!(2, err_status().code().unwrap());
}

#[test]
fn conv_result_status_ok() {
    let res = convert_result(Ok(ok_status()));
    assert_eq!(Ok(()), res);
}

#[test]
fn conv_result_status_fail() {
    let res = convert_result(Ok(err_status()));
    assert_eq!(Err(StatusError::Failure(err_status())), res);
}

#[test]
fn conv_result_status_io_error() {
    let ioerr = IoError::new(IoErrorKind::Other, "bla".to_owned());
    let ioerr2 = IoError::new(IoErrorKind::Other, "bla".to_owned());
    let res: Result<(), StatusError> = convert_result::<ExitStatus>(Err(ioerr));
    assert_eq!(Err(StatusError::Io(ioerr2)), res);
}

#[test]
fn conv_result_output_io_error() {
    let ioerr = IoError::new(IoErrorKind::Other, "bla".to_owned());
    let ioerr2 = IoError::new(IoErrorKind::Other, "bla".to_owned());
    let res: Result<Output, StatusErrorWithOutput> = convert_result::<RawOutput>(Err(ioerr));
    assert_eq!(Err(StatusErrorWithOutput::Io(ioerr2)), res);
}

#[test]
fn conv_result_output_ok() {
    let out = create_output(ok_status());
    let out2 = out.clone();
    assert_eq!(Ok(Output::from(out2)), convert_result(Ok(out)));
}

#[test]
fn conv_result_output_fail() {
    let out = create_output(err_status());
    let out2 = out.clone();
    assert_eq!(
        Err(StatusErrorWithOutput::Failure(err_status(), Output::from(out2))),
        convert_result(Ok(out))
    );
}

#[test]
fn conv_result_not_ready() {
    match convert_result(Ok(None::<ExitStatus>)) {
        Ok(false) => {}
        e => panic!("expected `Ok(false)` got `{:?}`", e),
    }
}

#[test]
fn conv_result_ready_ok() {
    match convert_result(Ok(Some(ok_status()))) {
        Ok(true) => {}
        e => panic!("expected `Ok(true)` got `{:?}`", e),
    }
}

#[test]
fn conv_result_ready_failure() {
    let res = convert_result(Ok(Some(err_status())));
    assert_eq!(Err(StatusError::Failure(err_status())), res);
}

#[test]
fn error_from_status_error_io() {
    let gen_io_err = || IoError::new(IoErrorKind::Other, "ups".to_owned());
    let serr = StatusError::Io(gen_io_err());
    let err: Error = serr.into();
    let io_err = match err {
        Error::Io(io_err) => io_err,
        Error::Failure(_, _) => panic!("unexpected From conversion"),
    };
    assert_eq!(gen_io_err(), io_err);
}

#[test]
fn error_from_status_error_failure() {
    let serr = StatusError::Failure(err_status());
    let err: Error = serr.into();
    match err {
        Error::Failure(ex, None) => assert_eq!(err_status(), ex),
        _ => panic!("unexpected From conversion"),
    }
}

#[test]
fn error_from_status_error_wo_io() {
    let gen_io_err = || IoError::new(IoErrorKind::Other, "ups".to_owned());
    let serr = StatusErrorWithOutput::Io(gen_io_err());
    let err: Error = serr.into();
    let io_err = match err {
        Error::Io(io_err) => io_err,
        Error::Failure(_, _) => panic!("unexpected From conversion"),
    };
    assert_eq!(gen_io_err(), io_err);
}

#[test]
fn error_from_status_error_wo_failure() {
    let serr = StatusErrorWithOutput::Failure(err_status(), Output::from(create_output(err_status())));
    let err: Error = serr.into();
    match err {
        Error::Failure(ex, Some(output)) => {
            assert_eq!(err_status(), ex);
            assert_eq!(vec![1, 2, 3], output.stdout);
            assert_eq!(vec![1, 2, 3], output.stderr);
        }
        _ => panic!("unexpected From conversion"),
    }
}
