use qpmu::{DeferredAction, DeferredResult, HostError, HostErrorKind, IoError, ProcessOutput};

#[test]
fn not_found_maps_to_not_found() {
    let e = IoError::from(HostError { kind: HostErrorKind::NotFound, message: "No such file".to_string() });
    assert!(matches!(e, IoError::NotFound));
    assert_eq!(e.describe(), "entity not found");
}

#[test]
fn other_kind_keeps_message() {
    let e = IoError::from(HostError { kind: HostErrorKind::Other, message: "strange".to_string() });
    assert!(matches!(&e, IoError::Other(m) if m == "strange"));
    assert_eq!(e.describe(), "strange");
}

#[test]
fn each_kind_has_its_variant() {
    let cases = [
        (HostErrorKind::PermissionDenied, "permission denied"),
        (HostErrorKind::BrokenPipe, "broken pipe"),
        (HostErrorKind::TimedOut, "timed out"),
        (HostErrorKind::OutOfMemory, "out of memory"),
        (HostErrorKind::UnexpectedEof, "unexpected end of file"),
    ];
    for (kind, text) in cases {
        let e = IoError::from(HostError { kind, message: "ignored".to_string() });
        assert_eq!(e.describe(), text);
    }
    assert!(matches!(
        IoError::from(HostError { kind: HostErrorKind::AddrInUse, message: String::new() }),
        IoError::AddrInUse
    ));
}

#[test]
fn spawn_of_missing_executable_reports_not_found() {
    let action = DeferredAction::Spawn("definitely-not-a-program".to_string(), vec![]);
    let (cmd, args) = action.command();
    assert_eq!(cmd, "definitely-not-a-program");
    assert!(args.is_empty());
    let result = action.complete(Err(HostError { kind: HostErrorKind::NotFound, message: "No such file or directory".to_string() }));
    assert!(matches!(result, DeferredResult::ProcessOutput(Err(IoError::NotFound))));
}

#[test]
fn spawn_output_is_handed_back() {
    let action = DeferredAction::Spawn("echo".to_string(), vec!["hi".to_string()]);
    let out = ProcessOutput { exit_code: Some(0), stdout: b"hi\n".to_vec(), stderr: Vec::new() };
    match action.complete(Ok(out)) {
        DeferredResult::ProcessOutput(Ok(o)) => {
            assert_eq!(o.exit_code, Some(0));
            assert_eq!(o.stdout, b"hi\n".to_vec());
            assert!(o.stderr.is_empty());
        }
        other => panic!("unexpected result {:?}", other),
    }
}
