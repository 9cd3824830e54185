//! The two pipes between the engine and the monitor.
//!
//! Of each pipe one end stays with the engine and is closed when a program
//! is started; the other is handed down to the monitor, which expects it
//! under a fixed descriptor number.

use vstd::prelude::*;
use crate::command::{Invocation, InvocationView};
use crate::error::{EngineError, ErrorView};
use crate::json::{
    find, i32_at, i32_field, key_text, lookup, members_view, parse_object, parsed_object,
    Datum, DecodeError, JsonValue, Key, Member,
};
use crate::text::{signed_decimal, u64_text};

verus! {

/// The descriptor under which the monitor expects the start pipe.
pub const START_PIPE_FD: i32 = 3;

/// The descriptor under which the monitor expects the sync pipe.
pub const SYNC_PIPE_FD: i32 = 4;

/// Which end of a pipe the child process inherits.
#[derive(Debug, Clone, Copy, PartialEq, Eq)]
pub enum Inheritable {
    Reader,
    Writer,
}

/// The two ends of a pipe, told apart by who gets them.
#[derive(Debug, Clone, Copy, PartialEq, Eq)]
pub struct PipeEnds {
    /// The end that the child inherits. It stays as the kernel made it.
    pub child_fd: i32,
    /// The end that the engine keeps. It is to be marked close-on-exec.
    pub parent_fd: i32,
}

/// Decides which end of a fresh pipe the child inherits and which the engine
/// keeps: with [`Inheritable::Reader`] the child reads and the engine keeps
/// the writer, with [`Inheritable::Writer`] the other way round.
pub fn create_pipe(kind: Inheritable, read_fd: i32, write_fd: i32) -> (r: PipeEnds)
    ensures
        kind is Reader ==> r.child_fd == read_fd && r.parent_fd == write_fd,
        kind is Writer ==> r.child_fd == write_fd && r.parent_fd == read_fd,
{
    match kind {
        Inheritable::Reader => PipeEnds { child_fd: read_fd, parent_fd: write_fd },
        Inheritable::Writer => PipeEnds { child_fd: write_fd, parent_fd: read_fd },
    }
}

/// The descriptor flags of the end that the engine keeps: those that were
/// read from the other end, with the close-on-exec flag added.
pub fn parent_flags(child_flags: i32, close_on_exec: i32) -> (r: i32)
    ensures
        r == child_flags | close_on_exec,
        r & close_on_exec == close_on_exec,
{
    assert((child_flags | close_on_exec) & close_on_exec == close_on_exec) by (bit_vector);
    child_flags | close_on_exec
}

/// The pipe on which the engine tells the monitor to begin. The engine
/// writes; the read end is inherited by the monitor.
#[derive(Debug, PartialEq, Eq)]
pub struct StartPipe {
    ends: PipeEnds,
}

impl StartPipe {
    /// Takes the two ends of a fresh pipe: the reader goes to the child, the
    /// writer stays with the engine and is to be marked close-on-exec.
    pub fn new(read_fd: i32, write_fd: i32) -> (r: StartPipe)
        ensures
            r.child_fd() == read_fd,
            r.parent_fd() == write_fd,
    {
        StartPipe { ends: create_pipe(Inheritable::Reader, read_fd, write_fd) }
    }

    /// The end that the monitor inherits.
    pub closed spec fn child_fd(&self) -> i32 {
        self.ends.child_fd
    }

    /// The end that the engine keeps.
    pub closed spec fn parent_fd(&self) -> i32 {
        self.ends.parent_fd
    }

    /// The two ends.
    pub fn ends(&self) -> (r: PipeEnds)
        ensures
            r.child_fd == self.child_fd(),
            r.parent_fd == self.parent_fd(),
    {
        self.ends
    }

    /// The signal that tells the monitor to begin: the descriptor to write
    /// to, and the single zero byte to write. The pipe is used up by it.
    pub fn ready(self) -> (r: (i32, Vec<u8>))
        ensures
            r.0 == self.parent_fd(),
            r.1@ == seq![0u8],
    {
        let mut signal: Vec<u8> = Vec::new();
        signal.push(0u8);
        assert(signal@ =~= seq![0u8]);
        (self.ends.parent_fd, signal)
    }
}

/// What the monitor reports on the sync pipe once it has set the container
/// up.
#[derive(Debug, Clone, PartialEq, Eq)]
pub enum SyncInfo {
    /// The container runs as process `pid`.
    Started { pid: i32 },
    /// The container did not come up.
    Failed { pid: i32, message: String },
}

/// What a [`SyncInfo`] stands for.
pub enum SyncView {
    Started { pid: i32 },
    Failed { pid: i32, message: Seq<char> },
}

impl View for SyncInfo {
    type V = SyncView;

    open spec fn view(&self) -> SyncView {
        match self {
            SyncInfo::Started { pid } => SyncView::Started { pid: *pid },
            SyncInfo::Failed { pid, message } => SyncView::Failed { pid: *pid, message: message@ },
        }
    }
}

/// The report that the members of an object spell out. `pid` is an integer
/// that fits `i32`. An object without `message` reports success; one with
/// `message`, which is then a text, reports failure.
pub open spec fn decode_sync(members: Seq<(Seq<char>, Datum)>) -> Result<SyncView, DecodeError> {
    match i32_at(members, Key::Pid) {
        Err(e) => Err(e),
        Ok(pid) => match lookup(members, key_text(Key::Message)) {
            None => Ok(SyncView::Started { pid: pid as i32 }),
            Some(Datum::Text(message)) => Ok(SyncView::Failed { pid: pid as i32, message }),
            Some(_) => Err(DecodeError::Invalid(Key::Message)),
        },
    }
}

/// Whether the object has a member `message`.
pub open spec fn has_message(members: Seq<(Seq<char>, Datum)>) -> bool {
    lookup(members, key_text(Key::Message)) is Some
}

/// Whether the object has a member `message` that is a text.
pub open spec fn has_text_message(members: Seq<(Seq<char>, Datum)>) -> bool {
    lookup(members, key_text(Key::Message)) matches Some(Datum::Text(_))
}

/// Whether the object has a member `pid` that is an integer and fits `i32`.
pub open spec fn has_pid(members: Seq<(Seq<char>, Datum)>) -> bool {
    i32_at(members, Key::Pid) is Ok
}

/// A report tells success from failure by nothing but whether `message` is
/// there, and both shapes are accepted: an object with a `pid` is a success
/// if it has no `message`, and a failure if it has one that is a text.
pub proof fn lemma_sync_told_by_message(members: Seq<(Seq<char>, Datum)>)
    ensures
        decode_sync(members) is Ok ==> (decode_sync(members)->Ok_0 is Failed <==> has_message(
            members,
        )),
        has_pid(members) && !has_message(members) ==> decode_sync(members) is Ok,
        has_pid(members) && has_text_message(members) ==> decode_sync(members) is Ok,
{
}

impl SyncInfo {
    /// Reads a report from the members of a JSON object.
    pub fn from_members(members: &[Member]) -> (r: Result<SyncInfo, DecodeError>)
        ensures
            match r {
                Ok(info) => decode_sync(members_view(members@)) == Ok::<SyncView, DecodeError>(
                    info@,
                ),
                Err(e) => decode_sync(members_view(members@)) == Err::<SyncView, DecodeError>(e),
            },
    {
        let pid = match i32_field(members, Key::Pid) {
            Ok(pid) => pid,
            Err(e) => {
                return Err(e);
            },
        };
        match find(members, "message") {
            None => Ok(SyncInfo::Started { pid }),
            Some(JsonValue::Text(message)) => Ok(
                SyncInfo::Failed { pid, message: message.clone() },
            ),
            Some(_) => Err(DecodeError::Invalid(Key::Message)),
        }
    }
}

/// What a report means for the engine: the container's process id, or the
/// failure that the monitor reported. A report that cannot be decoded is
/// malformed.
pub open spec fn pid_of_report(report: Result<SyncView, DecodeError>) -> Result<i32, ErrorView> {
    match report {
        Ok(SyncView::Started { pid }) => Ok(pid),
        Ok(SyncView::Failed { pid, message }) => Err(
            ErrorView::SyncReported { status: pid, message },
        ),
        Err(_) => Err(ErrorView::SyncMalformed),
    }
}

/// What a line on the sync pipe means for the engine, given what the parser
/// makes of it.
pub open spec fn pid_of_line(parsed: Option<Seq<(Seq<char>, Datum)>>) -> Result<i32, ErrorView> {
    match parsed {
        Some(members) => pid_of_report(decode_sync(members)),
        None => Err(ErrorView::SyncMalformed),
    }
}

/// What a decoded report means for the engine.
pub fn pid_from_report(report: Result<SyncInfo, DecodeError>) -> (r: Result<i32, EngineError>)
    ensures
        match r {
            Ok(pid) => report matches Ok(SyncInfo::Started { pid: p }) && p == pid,
            Err(e) => match report {
                Ok(SyncInfo::Started { .. }) => false,
                Ok(SyncInfo::Failed { pid, message }) => e@ == (ErrorView::SyncReported {
                    status: pid,
                    message: message@,
                }),
                Err(_) => e@ == ErrorView::SyncMalformed,
            },
        },
{
    match report {
        Ok(SyncInfo::Started { pid }) => Ok(pid),
        Ok(SyncInfo::Failed { pid, message }) => Err(
            EngineError::SyncReported { status: pid, message },
        ),
        Err(_) => Err(EngineError::SyncMalformed),
    }
}

/// The pipe on which the monitor reports the container's process id. The
/// engine reads; the write end is inherited by the monitor.
#[derive(Debug, PartialEq, Eq)]
pub struct SyncPipe {
    ends: PipeEnds,
}

impl SyncPipe {
    /// Takes the two ends of a fresh pipe: the writer goes to the child, the
    /// reader stays with the engine and is to be marked close-on-exec.
    pub fn new(read_fd: i32, write_fd: i32) -> (r: SyncPipe)
        ensures
            r.child_fd() == write_fd,
            r.parent_fd() == read_fd,
    {
        SyncPipe { ends: create_pipe(Inheritable::Writer, read_fd, write_fd) }
    }

    /// The end that the monitor inherits.
    pub closed spec fn child_fd(&self) -> i32 {
        self.ends.child_fd
    }

    /// The end that the engine keeps.
    pub closed spec fn parent_fd(&self) -> i32 {
        self.ends.parent_fd
    }

    /// The two ends.
    pub fn ends(&self) -> (r: PipeEnds)
        ensures
            r.child_fd == self.child_fd(),
            r.parent_fd == self.parent_fd(),
    {
        self.ends
    }

    /// Takes the container's process id from the line that the monitor
    /// wrote to the pipe.
    pub fn get_pid(&self, line: &[u8]) -> (r: Result<i32, EngineError>)
        ensures
            match r {
                Ok(pid) => pid_of_line(parsed_object(line@)) == Ok::<i32, ErrorView>(pid),
                Err(e) => pid_of_line(parsed_object(line@)) == Err::<i32, ErrorView>(e@),
            },
    {
        pid_from_line(line)
    }
}

/// Takes the container's process id from a line of the sync pipe.
pub fn pid_from_line(line: &[u8]) -> (r: Result<i32, EngineError>)
    ensures
        match r {
            Ok(pid) => pid_of_line(parsed_object(line@)) == Ok::<i32, ErrorView>(pid),
            Err(e) => pid_of_line(parsed_object(line@)) == Err::<i32, ErrorView>(e@),
        },
{
    match parse_object(line) {
        Ok(members) => pid_from_report(SyncInfo::from_members(members.as_slice())),
        Err(_) => Err(EngineError::SyncMalformed),
    }
}

/// The name of the variable that tells the monitor where the start pipe is.
pub open spec fn start_pipe_variable() -> Seq<char> {
    "_OCI_STARTPIPE"@
}

/// The name of the variable that tells the monitor where the sync pipe is.
pub open spec fn sync_pipe_variable() -> Seq<char> {
    "_OCI_SYNCPIPE"@
}

/// A launch that hands the two pipes down: the environment names the two
/// descriptor numbers, and the child's ends are duplicated onto them before
/// the program starts, the start pipe first.
pub open spec fn with_oci_pipes(
    call: InvocationView,
    start_fd: i32,
    sync_fd: i32,
) -> InvocationView {
    InvocationView {
        env: call.env.push((start_pipe_variable(), signed_decimal(START_PIPE_FD as int))).push(
            (sync_pipe_variable(), signed_decimal(SYNC_PIPE_FD as int)),
        ),
        inherit: call.inherit.push((start_fd, START_PIPE_FD)).push((sync_fd, SYNC_PIPE_FD)),
        ..call
    }
}

/// What a launch can do for the monitor's two pipes.
pub trait CommandExt {
    /// Makes the child inherit the start pipe as descriptor 3 and the sync
    /// pipe as descriptor 4, and tells it so in `_OCI_STARTPIPE` and
    /// `_OCI_SYNCPIPE`.
    fn inherit_oci_pipes(&mut self, start: &StartPipe, sync: &SyncPipe);
}

impl CommandExt for Invocation {
    fn inherit_oci_pipes(&mut self, start: &StartPipe, sync: &SyncPipe)
        ensures
            final(self)@ == with_oci_pipes(old(self)@, start.child_fd(), sync.child_fd()),
    {
        let start_number = u64_text(START_PIPE_FD as u64);
        let sync_number = u64_text(SYNC_PIPE_FD as u64);
        self.env.push((String::from_str("_OCI_STARTPIPE"), start_number));
        self.env.push((String::from_str("_OCI_SYNCPIPE"), sync_number));
        self.inherit.push((start.ends.child_fd, START_PIPE_FD));
        self.inherit.push((sync.ends.child_fd, SYNC_PIPE_FD));
        assert(self@.env =~= with_oci_pipes(old(self)@, start.child_fd(), sync.child_fd()).env);
    }
}

} // verus!
