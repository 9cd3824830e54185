//! The exchange with the monitor that brings one container up.
//!
//! The engine launches the monitor, tells it to begin, waits until it has
//! set the container up, reads the container's process id from the sync pipe
//! and connects to the console socket. The exchange is kept as a state that
//! takes one event at a time and answers with what is to be done next.

use vstd::prelude::*;
use crate::command::{plain_call, Invocation, InvocationView, Output};
use crate::container::{runtime_path, Container, ContainerView};
use crate::error::{EngineError, ErrorView};
use crate::image::{join_path, path_below, BundleView, OciBundle};
use crate::json::parsed_object;
use crate::pipe::{pid_from_line, pid_of_line, with_oci_pipes, CommandExt, StartPipe, SyncPipe};
use crate::text::{text_of, utf8_text};

verus! {

/// The name of the monitor.
pub open spec fn monitor_name() -> Seq<char> {
    "conmon"@
}

/// The launch of the monitor for the container `id`, whose console socket
/// is kept under `uuid`, on the bundle `runtime`, before the pipes are handed
/// down.
pub open spec fn monitor_call(
    id: Seq<char>,
    uuid: Seq<char>,
    runtime: BundleView,
) -> InvocationView {
    plain_call(
        monitor_name(),
        seq![
            "--log-level=debug"@,
            "--systemd-cgroup"@,
            "--terminal"@,
            "--cid"@,
            id,
            "--cuuid"@,
            uuid,
            "--name"@,
            id,
            "--runtime"@,
            runtime_path(),
            "--bundle"@,
            runtime.bundle_dir,
            "--exit-dir"@,
            runtime.exits_dir,
            "--log-path"@,
            runtime.log_file,
            "--container-pidfile"@,
            runtime.pid_file,
            "--socket-dir-path"@,
            runtime.base_dir,
        ],
    )
}

/// Where the monitor puts the console socket.
pub open spec fn console_socket(uuid: Seq<char>, runtime: BundleView) -> Seq<char> {
    path_below(path_below(runtime.base_dir, uuid), "attach"@)
}

/// How far the exchange with the monitor has come.
#[derive(Debug, Clone, Copy, PartialEq, Eq)]
pub enum Phase {
    /// The monitor was launched; the start signal is being written.
    Signaling,
    /// The start signal could not be written; the monitor's end is awaited
    /// to learn why.
    Draining,
    /// The start signal was written; the monitor sets the container up and
    /// then exits.
    Settling,
    /// The monitor has exited with success; its report is being read from
    /// the sync pipe.
    Syncing,
    /// The container runs as `pid`; the console socket is being connected.
    Attaching { pid: i32 },
}

/// What happened to the step that the exchange waits for.
#[derive(Debug, Clone, PartialEq, Eq)]
pub enum Event {
    /// The start signal was written.
    ReadySent,
    /// The start signal could not be written.
    ReadyFailed,
    /// The monitor has exited.
    Exited(Output),
    /// A line was read from the sync pipe.
    SyncLine(Vec<u8>),
    /// Nothing could be read from the sync pipe.
    SyncClosed,
    /// The console socket is connected.
    Attached,
    /// The step failed for a reason of the system.
    Failed { message: String },
}

/// What an [`Event`] stands for.
pub enum EventView {
    ReadySent,
    ReadyFailed,
    Exited { success: bool, stderr: Seq<u8> },
    SyncLine(Seq<u8>),
    SyncClosed,
    Attached,
    Failed { message: Seq<char> },
}

impl View for Event {
    type V = EventView;

    open spec fn view(&self) -> EventView {
        match self {
            Event::ReadySent => EventView::ReadySent,
            Event::ReadyFailed => EventView::ReadyFailed,
            Event::Exited(output) => EventView::Exited {
                success: output.success,
                stderr: output.stderr@,
            },
            Event::SyncLine(line) => EventView::SyncLine(line@),
            Event::SyncClosed => EventView::SyncClosed,
            Event::Attached => EventView::Attached,
            Event::Failed { message } => EventView::Failed { message: message@ },
        }
    }
}

/// What the caller is to do next for the exchange.
#[derive(Debug, Clone, PartialEq, Eq)]
pub enum Action {
    /// Wait until the monitor has exited, and collect what it wrote.
    AwaitExit,
    /// Read one line from the engine's end of the sync pipe.
    ReadSync,
    /// Connect to the console socket at `socket`.
    Attach { socket: String },
}

/// What an [`Action`] stands for.
pub enum ActionView {
    AwaitExit,
    ReadSync,
    Attach { socket: Seq<char> },
}

impl View for Action {
    type V = ActionView;

    open spec fn view(&self) -> ActionView {
        match self {
            Action::AwaitExit => ActionView::AwaitExit,
            Action::ReadSync => ActionView::ReadSync,
            Action::Attach { socket } => ActionView::Attach { socket: socket@ },
        }
    }
}

/// The exchange with the monitor that brings one container up.
#[derive(Debug, PartialEq, Eq)]
pub struct Handshake {
    id: String,
    uuid: String,
    runtime: OciBundle,
    phase: Phase,
}

/// What a [`Handshake`] stands for.
pub struct HandshakeView {
    pub id: Seq<char>,
    pub uuid: Seq<char>,
    pub runtime: BundleView,
    pub phase: Phase,
}

impl View for Handshake {
    type V = HandshakeView;

    closed spec fn view(&self) -> HandshakeView {
        HandshakeView { id: self.id@, uuid: self.uuid@, runtime: self.runtime@, phase: self.phase }
    }
}

/// Where an exchange stands after an event.
#[derive(Debug, PartialEq, Eq)]
pub enum Step {
    /// The exchange goes on: the caller carries the action out and hands in
    /// what came of it.
    Next(Handshake, Action),
    /// The container is up.
    Done(Container),
    /// The exchange has failed, and no container comes of it.
    Abort(EngineError),
}

/// What a [`Step`] stands for.
pub enum StepView {
    Next(HandshakeView, ActionView),
    Done(ContainerView),
    Abort(ErrorView),
}

impl View for Step {
    type V = StepView;

    open spec fn view(&self) -> StepView {
        match self {
            Step::Next(handshake, action) => StepView::Next(handshake@, action@),
            Step::Done(container) => StepView::Done(container@),
            Step::Abort(e) => StepView::Abort(e@),
        }
    }
}

/// How the failure of the monitor is told once the start signal could not
/// be written: with what the monitor wrote, if it exited with a failure.
pub open spec fn signal_failure(success: bool, stderr: Seq<u8>) -> ErrorView {
    if success {
        ErrorView::SignalFailed { stderr: None }
    } else {
        match text_of(stderr) {
            Some(text) => ErrorView::SignalFailed { stderr: Some(text) },
            None => ErrorView::InvalidUtf8,
        }
    }
}

/// How the failure of the monitor during setup is told.
pub open spec fn setup_failure(stderr: Seq<u8>) -> ErrorView {
    match text_of(stderr) {
        Some(text) => ErrorView::SetupFailed { stderr: text },
        None => ErrorView::InvalidUtf8,
    }
}

/// The exchange, one event at a time.
///
/// The start signal is written first. If that fails, the monitor's end is
/// awaited and the failure told with what it wrote. Otherwise the monitor
/// sets the container up and exits; a failure there ends the exchange. Then
/// one line is read from the sync pipe, which holds the container's process
/// id or the monitor's complaint. At last the console socket is connected,
/// and the container is there. A failure of the system ends the exchange at
/// any point, and so does an event that the exchange did not wait for.
pub open spec fn monitor_step(h: HandshakeView, event: EventView) -> StepView {
    match (h.phase, event) {
        (_, EventView::Failed { message }) => StepView::Abort(ErrorView::Io { message }),
        (Phase::Signaling, EventView::ReadySent) => StepView::Next(
            HandshakeView { phase: Phase::Settling, ..h },
            ActionView::AwaitExit,
        ),
        (Phase::Signaling, EventView::ReadyFailed) => StepView::Next(
            HandshakeView { phase: Phase::Draining, ..h },
            ActionView::AwaitExit,
        ),
        (Phase::Draining, EventView::Exited { success, stderr }) => StepView::Abort(
            signal_failure(success, stderr),
        ),
        (Phase::Settling, EventView::Exited { success, stderr }) => if success {
            StepView::Next(HandshakeView { phase: Phase::Syncing, ..h }, ActionView::ReadSync)
        } else {
            StepView::Abort(setup_failure(stderr))
        },
        (Phase::Syncing, EventView::SyncLine(line)) => match pid_of_line(parsed_object(line)) {
            Ok(pid) => StepView::Next(
                HandshakeView { phase: Phase::Attaching { pid }, ..h },
                ActionView::Attach { socket: console_socket(h.uuid, h.runtime) },
            ),
            Err(e) => StepView::Abort(e),
        },
        (Phase::Syncing, EventView::SyncClosed) => StepView::Abort(ErrorView::SyncUnreadable),
        (Phase::Attaching { pid }, EventView::Attached) => StepView::Done(
            ContainerView { id: h.id, uuid: h.uuid, pid, runtime: h.runtime },
        ),
        _ => StepView::Abort(ErrorView::OutOfTurn),
    }
}

impl Handshake {
    /// Opens the exchange for the container `id`, whose console socket the
    /// monitor keeps under `uuid`. Gives the launch of the monitor, with
    /// both pipes handed down; once it is launched, the start signal is to be
    /// written, and what came of that is the first event.
    pub fn begin(id: &str, uuid: &str, rt: OciBundle, start: &StartPipe, sync: &SyncPipe) -> (r: (
        Handshake,
        Invocation,
    ))
        ensures
            r.0@ == (HandshakeView { id: id@, uuid: uuid@, runtime: rt@, phase: Phase::Signaling }),
            r.1@ == with_oci_pipes(
                monitor_call(id@, uuid@, rt@),
                start.child_fd(),
                sync.child_fd(),
            ),
    {
        let mut call = Invocation::new("conmon");
        call.arg("--log-level=debug");
        call.arg("--systemd-cgroup");
        call.arg("--terminal");
        call.arg("--cid");
        call.arg(id);
        call.arg("--cuuid");
        call.arg(uuid);
        call.arg("--name");
        call.arg(id);
        call.arg("--runtime");
        call.arg("/usr/bin/crun");
        call.arg("--bundle");
        call.arg(rt.bundle_dir());
        call.arg("--exit-dir");
        call.arg(rt.exits_dir());
        call.arg("--log-path");
        call.arg(rt.log_file());
        call.arg("--container-pidfile");
        call.arg(rt.pid_file());
        call.arg("--socket-dir-path");
        call.arg(rt.base_dir());
        assert(call@.args =~= monitor_call(id@, uuid@, rt@).args);
        call.inherit_oci_pipes(start, sync);
        let handshake = Handshake {
            id: String::from_str(id),
            uuid: String::from_str(uuid),
            runtime: rt,
            phase: Phase::Signaling,
        };
        (handshake, call)
    }

    /// How far the exchange has come.
    pub fn phase(&self) -> (r: Phase)
        ensures
            r == self@.phase,
    {
        self.phase
    }

    fn moved_to(self, phase: Phase) -> (r: Handshake)
        ensures
            r@ == (HandshakeView { phase, ..self@ }),
    {
        Handshake { id: self.id, uuid: self.uuid, runtime: self.runtime, phase }
    }

    /// Takes the exchange one step on.
    pub fn step(self, event: Event) -> (r: Step)
        ensures
            r@ == monitor_step(self@, event@),
    {
        match event {
            Event::Failed { message } => Step::Abort(EngineError::Io { message }),
            Event::ReadySent => match self.phase {
                Phase::Signaling => Step::Next(self.moved_to(Phase::Settling), Action::AwaitExit),
                _ => Step::Abort(EngineError::OutOfTurn),
            },
            Event::ReadyFailed => match self.phase {
                Phase::Signaling => Step::Next(self.moved_to(Phase::Draining), Action::AwaitExit),
                _ => Step::Abort(EngineError::OutOfTurn),
            },
            Event::Exited(output) => match self.phase {
                Phase::Draining => if output.success {
                    Step::Abort(EngineError::SignalFailed { stderr: None })
                } else {
                    match utf8_text(output.stderr.as_slice()) {
                        Some(text) => Step::Abort(EngineError::SignalFailed { stderr: Some(text) }),
                        None => Step::Abort(EngineError::InvalidUtf8),
                    }
                },
                Phase::Settling => if output.success {
                    Step::Next(self.moved_to(Phase::Syncing), Action::ReadSync)
                } else {
                    match utf8_text(output.stderr.as_slice()) {
                        Some(text) => Step::Abort(EngineError::SetupFailed { stderr: text }),
                        None => Step::Abort(EngineError::InvalidUtf8),
                    }
                },
                _ => Step::Abort(EngineError::OutOfTurn),
            },
            Event::SyncLine(line) => match self.phase {
                Phase::Syncing => match pid_from_line(line.as_slice()) {
                    Ok(pid) => {
                        let below = join_path(self.runtime.base_dir(), self.uuid.as_str());
                        let socket = join_path(below.as_str(), "attach");
                        let next = self.moved_to(Phase::Attaching { pid });
                        Step::Next(next, Action::Attach { socket })
                    },
                    Err(e) => Step::Abort(e),
                },
                _ => Step::Abort(EngineError::OutOfTurn),
            },
            Event::SyncClosed => match self.phase {
                Phase::Syncing => Step::Abort(EngineError::SyncUnreadable),
                _ => Step::Abort(EngineError::OutOfTurn),
            },
            Event::Attached => match self.phase {
                Phase::Attaching { pid } => Step::Done(
                    Container::assemble(self.id, self.uuid, pid, self.runtime),
                ),
                _ => Step::Abort(EngineError::OutOfTurn),
            },
        }
    }
}

/// The exchange from `step` on, through `events`. Once it is over, further
/// events change nothing.
pub open spec fn run(step: StepView, events: Seq<EventView>) -> StepView
    decreases events.len(),
{
    if events.len() == 0 {
        step
    } else {
        match step {
            StepView::Next(h, _) => run(monitor_step(h, events[0]), events.skip(1)),
            _ => step,
        }
    }
}

/// A container comes out of nothing but the whole exchange: the start
/// signal was written, the monitor exited with success, the line on the sync
/// pipe held the process id that the container now has, and the console
/// socket was connected, in this order. It keeps the name, the identifier
/// and the bundle that the exchange was opened with.
pub proof fn lemma_container_needs_whole_exchange(
    h: HandshakeView,
    action: ActionView,
    events: Seq<EventView>,
)
    requires
        h.phase == Phase::Signaling,
        run(StepView::Next(h, action), events) is Done,
    ensures
        events.len() >= 4,
        events[0] == EventView::ReadySent,
        events[1] is Exited && events[1]->success,
        events[2] is SyncLine && pid_of_line(parsed_object(events[2]->SyncLine_0)) == Ok::<
            i32,
            ErrorView,
        >(run(StepView::Next(h, action), events)->Done_0.pid),
        events[3] == EventView::Attached,
        run(StepView::Next(h, action), events)->Done_0.id == h.id,
        run(StepView::Next(h, action), events)->Done_0.uuid == h.uuid,
        run(StepView::Next(h, action), events)->Done_0.runtime == h.runtime,
{
    reveal_with_fuel(run, 6);
    if events.len() >= 1 {
        let e1 = events.skip(1);
        if e1.len() >= 1 {
            assert(e1[0] == events[1]);
            let e2 = e1.skip(1);
            if e2.len() >= 1 {
                assert(e2[0] == events[2]);
                let e3 = e2.skip(1);
                if e3.len() >= 1 {
                    assert(e3[0] == events[3]);
                }
            }
        }
    }
}

/// An exchange that has failed stays failed, whatever is handed in.
pub proof fn lemma_failure_is_final(e: ErrorView, events: Seq<EventView>)
    ensures
        run(StepView::Abort(e), events) == StepView::Abort(e),
{
}

} // verus!
