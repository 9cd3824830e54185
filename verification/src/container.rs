//! Containers: the commands that steer one, and how its state is found.

use vstd::prelude::*;
use crate::command::{exec_command, plain_call, tool_failure, Invocation, InvocationView, Output};
use crate::error::{EngineError, ErrorView, Tool};
use crate::image::{join_path, path_below, BundleView, OciBundle};
use crate::json::{decode_error_text, parsed_object, Datum};
use crate::monitor::{monitor_call, Handshake, HandshakeView, Phase};
use crate::pipe::{with_oci_pipes, StartPipe, SyncPipe};
use crate::text::{integer_of, parse_i64};

pub use crate::state::{State, StateView, Status};
use crate::state::decode_state;

verus! {

/// The path of the runtime.
pub open spec fn runtime_path() -> Seq<char> {
    "/usr/bin/crun"@
}

/// A launch of the runtime with `verb` for the container `id`.
pub open spec fn runtime_call(verb: Seq<Seq<char>>, id: Seq<char>) -> InvocationView {
    plain_call(runtime_path(), verb.push(id))
}

/// A container that the monitor has brought up.
#[derive(Debug, PartialEq, Eq)]
pub struct Container {
    id: String,
    uuid: String,
    pid: i32,
    runtime: OciBundle,
}

/// What a [`Container`] stands for.
pub struct ContainerView {
    /// The name that the client gave.
    pub id: Seq<char>,
    /// The identifier under which the monitor keeps its console socket.
    pub uuid: Seq<char>,
    /// The container's process, as the monitor reported it.
    pub pid: i32,
    /// The bundle that the container runs from.
    pub runtime: BundleView,
}

impl View for Container {
    type V = ContainerView;

    closed spec fn view(&self) -> ContainerView {
        ContainerView { id: self.id@, uuid: self.uuid@, pid: self.pid, runtime: self.runtime@ }
    }
}

impl Clone for Container {
    fn clone(&self) -> (r: Container)
        ensures
            r@ == self@,
    {
        Container {
            id: self.id.clone(),
            uuid: self.uuid.clone(),
            pid: self.pid,
            runtime: self.runtime.clone(),
        }
    }
}

/// Whether `c` is a digit or one of the letters `a` to `f`.
pub open spec fn is_lower_hex(c: char) -> bool {
    ('0' as u32 <= c as u32 && c as u32 <= '9' as u32) || ('a' as u32 <= c as u32 && c as u32
        <= 'f' as u32)
}

/// Whether `s` is a UUID in its usual form: 32 digits to base 16 in lower
/// case, in groups of 8, 4, 4, 4 and 12 with hyphens between them.
pub open spec fn is_hyphenated_uuid(s: Seq<char>) -> bool {
    &&& s.len() == 36
    &&& forall|i: int|
        0 <= i < 36 ==> if i == 8 || i == 13 || i == 18 || i == 23 {
            #[trigger] s[i] == '-'
        } else {
            is_lower_hex(s[i])
        }
}

/// `Uuid::new_v4`, written out by its `Display`: a random UUID in hyphenated
/// lower-case form. Which one it is depends on chance, so nothing more is
/// said of it. The call panics where the system has no random bytes to give.
#[verifier::external_body]
pub(crate) fn fresh_uuid() -> (r: String)
    ensures
        is_hyphenated_uuid(r@),
{
    uuid::Uuid::new_v4().to_string()
}

/// The file in which the monitor records how the container ended.
pub open spec fn exit_file(container: ContainerView) -> Seq<char> {
    path_below(container.runtime.exits_dir, "exit"@)
}

/// The state of a container that has ended with `exit_code`.
pub open spec fn stopped_state(container: ContainerView, exit_code: i64) -> StateView {
    StateView {
        id: container.id,
        status: Status::Stopped { exit_code },
        bundle: container.runtime.bundle_dir,
    }
}

/// What the runtime's answer to a state query means: its reply decoded, if
/// it exited with success.
pub open spec fn state_of_reply(parsed: Option<Seq<(Seq<char>, Datum)>>) -> Option<StateView> {
    match parsed {
        Some(members) => match decode_state(members) {
            Ok(state) => Some(state),
            Err(_) => None,
        },
        None => None,
    }
}

/// Whether `reason` tells why a reply was not read as a state: for a reply
/// that is a JSON object, it is the message of the decoding error. For one
/// that is not, it is what the parser says, of which nothing is known.
pub open spec fn unreadable_reason(
    parsed: Option<Seq<(Seq<char>, Datum)>>,
    reason: Seq<char>,
) -> bool {
    match parsed {
        Some(members) => match decode_state(members) {
            Err(e) => reason == decode_error_text(e),
            Ok(_) => false,
        },
        None => true,
    }
}

/// How far a state query has come once the runtime has answered.
#[derive(Debug, Clone, PartialEq, Eq)]
pub enum StateReply {
    /// The runtime knows the container: this is its state.
    Known(State),
    /// The runtime's reply could not be read.
    Unreadable(EngineError),
    /// The runtime failed with `error`. The exit file at `path` may still
    /// tell how the container ended.
    AskExitFile { path: String, error: EngineError },
}

impl Container {
    /// The handle of the container that an exchange has brought up.
    pub(crate) fn assemble(id: String, uuid: String, pid: i32, runtime: OciBundle) -> (r:
        Container)
        ensures
            r@ == (ContainerView { id: id@, uuid: uuid@, pid, runtime: runtime@ }),
    {
        Container { id, uuid, pid, runtime }
    }

    /// Opens the exchange with the monitor that brings the container `id` up
    /// from the bundle `rt`, under a fresh UUID. Gives the launch of the
    /// monitor, with both pipes handed down.
    pub fn create(id: &str, rt: OciBundle, start: &StartPipe, sync: &SyncPipe) -> (r: (
        Handshake,
        Invocation,
    ))
        ensures
            is_hyphenated_uuid(r.0@.uuid),
            r.0@ == (HandshakeView {
                id: id@,
                uuid: r.0@.uuid,
                runtime: rt@,
                phase: Phase::Signaling,
            }),
            r.1@ == with_oci_pipes(
                monitor_call(id@, r.0@.uuid, rt@),
                start.child_fd(),
                sync.child_fd(),
            ),
    {
        let uuid = fresh_uuid();
        Handshake::begin(id, uuid.as_str(), rt, start, sync)
    }

    /// The container's name.
    pub fn id(&self) -> (r: &str)
        ensures
            r@ == self@.id,
    {
        self.id.as_str()
    }

    /// The identifier under which the monitor keeps the console socket.
    pub fn uuid(&self) -> (r: &str)
        ensures
            r@ == self@.uuid,
    {
        self.uuid.as_str()
    }

    /// The container's process.
    pub fn pid(&self) -> (r: i32)
        ensures
            r == self@.pid,
    {
        self.pid
    }

    /// The bundle that the container runs from.
    pub fn runtime(&self) -> (r: &OciBundle)
        ensures
            r@ == self@.runtime,
    {
        &self.runtime
    }

    fn runtime_verb(&self, verb: &str) -> (r: Invocation)
        ensures
            r@ == runtime_call(seq![verb@], self@.id),
    {
        let mut call = Invocation::new("/usr/bin/crun");
        call.arg(verb);
        call.arg(self.id.as_str());
        assert(call@.args =~= seq![verb@].push(self@.id));
        call
    }

    /// The launch that starts the container.
    pub fn start(&self) -> (r: Invocation)
        ensures
            r@ == runtime_call(seq!["start"@], self@.id),
    {
        self.runtime_verb("start")
    }

    /// The launch that pauses the container.
    pub fn pause(&self) -> (r: Invocation)
        ensures
            r@ == runtime_call(seq!["pause"@], self@.id),
    {
        self.runtime_verb("pause")
    }

    /// The launch that lets a paused container go on.
    pub fn resume(&self) -> (r: Invocation)
        ensures
            r@ == runtime_call(seq!["resume"@], self@.id),
    {
        self.runtime_verb("resume")
    }

    /// The launch that removes the container at once. The handle is used up.
    pub fn delete(self) -> (r: Invocation)
        ensures
            r@ == runtime_call(seq!["delete"@, "--force"@], self@.id),
    {
        let mut call = Invocation::new("/usr/bin/crun");
        call.arg("delete");
        call.arg("--force");
        call.arg(self.id.as_str());
        assert(call@.args =~= seq!["delete"@, "--force"@].push(self@.id));
        call
    }

    /// The launch that asks the runtime for the container's state.
    pub fn state(&self) -> (r: Invocation)
        ensures
            r@ == runtime_call(seq!["state"@], self@.id),
    {
        self.runtime_verb("state")
    }

    /// Reads the runtime's answer to the state query `call`. Where the
    /// runtime exited with success, its reply is the state. Where it failed,
    /// the exit file is to be asked, and the failure is kept for the case that
    /// there is none.
    pub fn state_reply(&self, call: &Invocation, output: Output) -> (r: StateReply)
        ensures
            match r {
                StateReply::Known(state) => output.success && state_of_reply(
                    parsed_object(output.stdout@),
                ) == Some(state@),
                StateReply::Unreadable(e) => output.success && state_of_reply(
                    parsed_object(output.stdout@),
                ) is None && e@ is InvalidState && unreadable_reason(
                    parsed_object(output.stdout@),
                    e@->InvalidState_reason,
                ),
                StateReply::AskExitFile { path, error } => !output.success && path@ == exit_file(
                    self@,
                ) && error@ == tool_failure(Tool::Runtime, call@, output.stderr@),
            },
    {
        match exec_command(Tool::Runtime, call, output) {
            Ok(stdout) => match State::from_slice(stdout.as_slice()) {
                Ok(state) => StateReply::Known(state),
                Err(e) => StateReply::Unreadable(EngineError::InvalidState { reason: e.message() }),
            },
            Err(error) => StateReply::AskExitFile {
                path: join_path(self.runtime.exits_dir(), "exit"),
                error,
            },
        }
    }

    /// The state of a container that the runtime no longer knows, from what
    /// its exit file holds: the decimal exit code. Without an exit file the
    /// runtime's failure `error` stands.
    pub fn read_state_from_exit_file(&self, contents: Option<&[u8]>, error: EngineError) -> (r:
        Result<State, EngineError>)
        ensures
            match contents {
                None => r == Err::<State, EngineError>(error),
                Some(bytes) => match integer_of(bytes@) {
                    Some(code) => r matches Ok(state) && state@ == stopped_state(
                        self@,
                        code as i64,
                    ),
                    None => r matches Err(e) && e@ == ErrorView::InvalidExitCode,
                },
            },
    {
        match contents {
            None => Err(error),
            Some(bytes) => match parse_i64(bytes) {
                Some(exit_code) => Ok(
                    State {
                        id: self.id.clone(),
                        status: Status::Stopped { exit_code },
                        bundle: String::from_str(self.runtime.bundle_dir()),
                    },
                ),
                None => Err(EngineError::InvalidExitCode),
            },
        }
    }
}

} // verus!
