use light_containerd::command::Invocation;
use light_containerd::error::EngineError;
use light_containerd::json::{DecodeError, JsonValue, Key, Member};
use light_containerd::pipe::{
    create_pipe, parent_flags, pid_from_line, pid_from_report, CommandExt, Inheritable, PipeEnds,
    StartPipe, SyncInfo, SyncPipe, START_PIPE_FD, SYNC_PIPE_FD,
};

fn member(name: &str, value: JsonValue) -> Member {
    Member { name: name.to_string(), value }
}

#[test]
fn reader_inheritable_pipe_guards_its_writer() {
    let ends = create_pipe(Inheritable::Reader, 10, 11);
    assert_eq!(ends, PipeEnds { child_fd: 10, parent_fd: 11 });
}

#[test]
fn writer_inheritable_pipe_guards_its_reader() {
    let ends = create_pipe(Inheritable::Writer, 10, 11);
    assert_eq!(ends, PipeEnds { child_fd: 11, parent_fd: 10 });
}

#[test]
fn parent_end_gets_the_close_on_exec_flag() {
    assert_eq!(parent_flags(0, 1), 1);
    assert_eq!(parent_flags(1, 1), 1);
    assert_eq!(parent_flags(0b1000, 1), 0b1001);
    assert_eq!(parent_flags(0b0110, 0b0001), 0b0111);
}

#[test]
fn start_pipe_hands_its_reader_to_the_child() {
    let pipe = StartPipe::new(5, 6);
    assert_eq!(pipe.ends(), PipeEnds { child_fd: 5, parent_fd: 6 });
}

#[test]
fn sync_pipe_hands_its_writer_to_the_child() {
    let pipe = SyncPipe::new(7, 8);
    assert_eq!(pipe.ends(), PipeEnds { child_fd: 8, parent_fd: 7 });
}

#[test]
fn ready_signal_is_one_zero_byte_on_the_writer() {
    let (fd, payload) = StartPipe::new(5, 6).ready();
    assert_eq!(fd, 6);
    assert_eq!(payload, vec![0u8]);
}

#[test]
fn monitor_expects_the_pipes_as_three_and_four() {
    assert_eq!(START_PIPE_FD, 3);
    assert_eq!(SYNC_PIPE_FD, 4);
}

#[test]
fn command_inherits_both_pipes() {
    let start = StartPipe::new(20, 21);
    let sync = SyncPipe::new(30, 31);
    let mut call = Invocation::new("conmon");
    call.arg("--terminal");
    call.inherit_oci_pipes(&start, &sync);
    assert_eq!(call.program, "conmon");
    assert_eq!(call.args, vec!["--terminal".to_string()]);
    assert_eq!(
        call.env,
        vec![
            ("_OCI_STARTPIPE".to_string(), "3".to_string()),
            ("_OCI_SYNCPIPE".to_string(), "4".to_string()),
        ]
    );
    assert_eq!(call.inherit, vec![(20, 3), (31, 4)]);
}

#[test]
fn sync_line_with_pid_alone_is_success() {
    let pipe = SyncPipe::new(7, 8);
    assert_eq!(pipe.get_pid(b"{\"pid\": 168495}\n"), Ok(168495));
    assert_eq!(pipe.get_pid(b"{\"pid\":1}"), Ok(1));
    assert_eq!(pid_from_line(b"{\"pid\":2147483647}\n"), Ok(i32::MAX));
    assert_eq!(pid_from_line(b"{\"pid\":-2147483648}\n"), Ok(i32::MIN));
    assert_eq!(pid_from_line(b"{\"pid\":12,\"other\":\"ignored\"}\n"), Ok(12));
}

#[test]
fn sync_line_with_message_is_failure() {
    let pipe = SyncPipe::new(7, 8);
    let err = pipe.get_pid(b"{\"pid\": -1, \"message\": \"runtime failed\"}\n").unwrap_err();
    assert_eq!(
        err,
        EngineError::SyncReported { status: -1, message: "runtime failed".to_string() }
    );
    assert_eq!(
        err.message(),
        "failed to read container PID from `conmon`, returned status -1: [runtime failed]"
    );
    assert_eq!(
        pid_from_line(b"{\"message\":\"\",\"pid\":0}"),
        Err(EngineError::SyncReported { status: 0, message: String::new() })
    );
}

#[test]
fn sync_line_that_is_no_report_is_malformed() {
    for line in [
        &b""[..],
        b"\n",
        b"168495\n",
        b"{}\n",
        b"{\"message\":\"no pid\"}\n",
        b"{\"pid\":\"12\"}\n",
        b"{\"pid\":1.5}\n",
        b"{\"pid\":2147483648}\n",
        b"{\"pid\":-2147483649}\n",
        b"{\"pid\":1,\"message\":5}\n",
        b"{\"pid\":1,\"message\":null}\n",
        b"{\"pid\":1}{\"pid\":2}\n",
        b"[1]\n",
    ] {
        assert_eq!(pid_from_line(line), Err(EngineError::SyncMalformed));
    }
    assert_eq!(EngineError::SyncMalformed.message(), "failed to parse SyncInfo object");
    assert_eq!(EngineError::SyncUnreadable.message(), "failed to read from SyncPipe");
}

#[test]
fn report_is_told_apart_by_its_message_alone() {
    let started = vec![member("pid", JsonValue::Unsigned(9))];
    assert_eq!(SyncInfo::from_members(&started), Ok(SyncInfo::Started { pid: 9 }));
    let failed = vec![
        member("pid", JsonValue::Unsigned(9)),
        member("message", JsonValue::Text("boom".to_string())),
    ];
    assert_eq!(
        SyncInfo::from_members(&failed),
        Ok(SyncInfo::Failed { pid: 9, message: "boom".to_string() })
    );
    let negative = vec![member("pid", JsonValue::Negative(-3))];
    assert_eq!(SyncInfo::from_members(&negative), Ok(SyncInfo::Started { pid: -3 }));
}

#[test]
fn report_needs_a_pid_that_fits() {
    assert_eq!(SyncInfo::from_members(&[]), Err(DecodeError::Missing(Key::Pid)));
    assert_eq!(
        SyncInfo::from_members(&[member("pid", JsonValue::Text("1".to_string()))]),
        Err(DecodeError::Invalid(Key::Pid))
    );
    assert_eq!(
        SyncInfo::from_members(&[member("pid", JsonValue::Unsigned(2147483648))]),
        Err(DecodeError::Invalid(Key::Pid))
    );
    assert_eq!(
        SyncInfo::from_members(&[member("pid", JsonValue::Negative(-2147483649))]),
        Err(DecodeError::Invalid(Key::Pid))
    );
    assert_eq!(
        SyncInfo::from_members(&[
            member("pid", JsonValue::Unsigned(1)),
            member("message", JsonValue::Bool(true)),
        ]),
        Err(DecodeError::Invalid(Key::Message))
    );
}

#[test]
fn report_becomes_a_pid_or_an_error() {
    assert_eq!(pid_from_report(Ok(SyncInfo::Started { pid: 4 })), Ok(4));
    assert_eq!(
        pid_from_report(Ok(SyncInfo::Failed { pid: 4, message: "m".to_string() })),
        Err(EngineError::SyncReported { status: 4, message: "m".to_string() })
    );
    assert_eq!(
        pid_from_report(Err(DecodeError::Missing(Key::Pid))),
        Err(EngineError::SyncMalformed)
    );
}
