//! The making of a container, one task at a time: fetch the image, unpack it,
//! bring the container up through the monitor, and start it.
//!
//! The engine decides; its caller does what only the operating system can do
//! and reports what came of it.

use vstd::prelude::*;
use crate::command::{exec_command, tool_failure, Invocation, InvocationView, Output};
use crate::container::{runtime_call, Container, ContainerView};
use crate::monitor::{
    monitor_call, monitor_step, Action, ActionView, Event, EventView, Handshake, HandshakeView,
    Phase, Step, StepView,
};
use crate::error::{EngineError, ErrorView, Tool};
use crate::image::{
    bundle_below, fetch_call, unpack_call, BundleView, ImageRef, OciBundle, OciImage,
};
use crate::pipe::{with_oci_pipes, StartPipe, SyncPipe};

verus! {

/// What the caller is to do next for a container that is being made.
#[derive(Debug, PartialEq, Eq)]
pub enum Task {
    /// Make a fresh temporary directory for the image.
    MakeImageDir,
    /// Make a fresh temporary directory as the base of the bundle.
    MakeBaseDir,
    /// Run the program to its end and collect what it wrote.
    Run(Invocation),
    /// Create the directory `path`.
    MakeDir { path: String },
    /// Open the start pipe and the sync pipe.
    OpenPipes,
    /// Launch the monitor and leave it running.
    Spawn(Invocation),
    /// Write `signal` to the descriptor `fd` and close it.
    SignalReady { fd: i32, signal: Vec<u8> },
    /// Carry out this step of the exchange with the monitor.
    Monitor(Action),
}

/// What a [`Task`] stands for.
pub enum TaskView {
    MakeImageDir,
    MakeBaseDir,
    Run(InvocationView),
    MakeDir { path: Seq<char> },
    OpenPipes,
    Spawn(InvocationView),
    SignalReady { fd: i32, signal: Seq<u8> },
    Monitor(ActionView),
}

impl View for Task {
    type V = TaskView;

    open spec fn view(&self) -> TaskView {
        match self {
            Task::MakeImageDir => TaskView::MakeImageDir,
            Task::MakeBaseDir => TaskView::MakeBaseDir,
            Task::Run(call) => TaskView::Run(call@),
            Task::MakeDir { path } => TaskView::MakeDir { path: path@ },
            Task::OpenPipes => TaskView::OpenPipes,
            Task::Spawn(call) => TaskView::Spawn(call@),
            Task::SignalReady { fd, signal } => TaskView::SignalReady { fd: *fd, signal: signal@ },
            Task::Monitor(action) => TaskView::Monitor(action@),
        }
    }
}

/// What came of a [`Task`].
#[derive(Debug, PartialEq, Eq)]
pub enum Outcome {
    /// The temporary directory was made at `path`.
    Dir { path: String },
    /// The program has run to its end.
    Exited(Output),
    /// The directory was created, or the monitor launched.
    Done,
    /// The two pipes are open.
    Pipes { start: StartPipe, sync: SyncPipe },
    /// The signal was written or not, or the step of the exchange came out
    /// like this.
    Monitor(Event),
    /// The task failed for a reason of the system.
    Failed { message: String },
}

/// What an [`Outcome`] stands for.
pub enum OutcomeView {
    Dir { path: Seq<char> },
    Exited { success: bool, stderr: Seq<u8> },
    Done,
    Pipes { start_child: i32, start_parent: i32, sync_child: i32 },
    Monitor(EventView),
    Failed { message: Seq<char> },
}

impl View for Outcome {
    type V = OutcomeView;

    open spec fn view(&self) -> OutcomeView {
        match self {
            Outcome::Dir { path } => OutcomeView::Dir { path: path@ },
            Outcome::Exited(output) => OutcomeView::Exited {
                success: output.success,
                stderr: output.stderr@,
            },
            Outcome::Done => OutcomeView::Done,
            Outcome::Pipes { start, sync } => OutcomeView::Pipes {
                start_child: start.child_fd(),
                start_parent: start.parent_fd(),
                sync_child: sync.child_fd(),
            },
            Outcome::Monitor(event) => OutcomeView::Monitor(event@),
            Outcome::Failed { message } => OutcomeView::Failed { message: message@ },
        }
    }
}

/// How far the making of a container has come.
#[derive(Debug, PartialEq, Eq)]
pub enum Stage {
    /// A directory for the image is being made.
    ImageDir,
    /// The copy tool runs.
    Fetching { src_dir: String, call: Invocation },
    /// The image is there; a base directory for the bundle is being made.
    BaseDir { image: OciImage },
    /// The unpack tool runs.
    Unpacking { bundle: OciBundle, call: Invocation },
    /// The bundle is unpacked; its `exits` directory is being created.
    ExitsDir { bundle: OciBundle },
    /// The pipes are being opened.
    Pipes { bundle: OciBundle },
    /// The monitor is being launched.
    Spawning { handshake: Handshake, start: StartPipe },
    /// The exchange with the monitor goes on.
    Monitor { handshake: Handshake },
    /// The container is up; the runtime starts it.
    Starting { container: Container, call: Invocation },
}

/// What a [`Stage`] stands for.
pub enum StageView {
    ImageDir,
    Fetching { src_dir: Seq<char>, call: InvocationView },
    BaseDir { image: Seq<char> },
    Unpacking { bundle: BundleView, call: InvocationView },
    ExitsDir { bundle: BundleView },
    Pipes { bundle: BundleView },
    Spawning { handshake: HandshakeView, ready_fd: i32 },
    Monitor { handshake: HandshakeView },
    Starting { container: ContainerView, call: InvocationView },
}

impl View for Stage {
    type V = StageView;

    open spec fn view(&self) -> StageView {
        match self {
            Stage::ImageDir => StageView::ImageDir,
            Stage::Fetching { src_dir, call } => StageView::Fetching {
                src_dir: src_dir@,
                call: call@,
            },
            Stage::BaseDir { image } => StageView::BaseDir { image: image@ },
            Stage::Unpacking { bundle, call } => StageView::Unpacking {
                bundle: bundle@,
                call: call@,
            },
            Stage::ExitsDir { bundle } => StageView::ExitsDir { bundle: bundle@ },
            Stage::Pipes { bundle } => StageView::Pipes { bundle: bundle@ },
            Stage::Spawning { handshake, start } => StageView::Spawning {
                handshake: handshake@,
                ready_fd: start.parent_fd(),
            },
            Stage::Monitor { handshake } => StageView::Monitor { handshake: handshake@ },
            Stage::Starting { container, call } => StageView::Starting {
                container: container@,
                call: call@,
            },
        }
    }
}

/// A container that is being made.
#[derive(Debug, PartialEq, Eq)]
pub struct CreateFlow {
    name: String,
    uuid: String,
    image: ImageRef,
    stage: Stage,
}

/// What a [`CreateFlow`] stands for.
pub struct FlowView {
    /// The name under which the container will be registered.
    pub name: Seq<char>,
    /// The identifier under which the monitor will keep its console socket.
    pub uuid: Seq<char>,
    /// The name of the image.
    pub image_name: Seq<char>,
    /// The tag of the image.
    pub image_tag: Seq<char>,
    pub stage: StageView,
}

impl View for CreateFlow {
    type V = FlowView;

    closed spec fn view(&self) -> FlowView {
        FlowView {
            name: self.name@,
            uuid: self.uuid@,
            image_name: self.image.name@,
            image_tag: self.image.tag@,
            stage: self.stage@,
        }
    }
}

/// Where the making of a container stands after a task.
#[derive(Debug, PartialEq, Eq)]
pub enum Progress {
    /// There is more to do: the caller carries the task out and reports
    /// what came of it.
    Next(CreateFlow, Task),
    /// The container is up and started. It is still to be registered.
    Done(Container),
    /// The making has failed, and no container comes of it. Where the
    /// monitor had brought one up already, it is handed over to be released.
    Abort(EngineError, Option<Container>),
}

/// What a [`Progress`] stands for.
pub enum ProgressView {
    Next(FlowView, TaskView),
    Done(ContainerView),
    Abort(ErrorView, Option<ContainerView>),
}

impl View for Progress {
    type V = ProgressView;

    open spec fn view(&self) -> ProgressView {
        match self {
            Progress::Next(flow, task) => ProgressView::Next(flow@, task@),
            Progress::Done(container) => ProgressView::Done(container@),
            Progress::Abort(e, release) => ProgressView::Abort(
                e@,
                match release {
                    Some(container) => Some(container@),
                    None => None,
                },
            ),
        }
    }
}

/// The flow with its stage changed.
pub open spec fn at_stage(flow: FlowView, stage: StageView) -> FlowView {
    FlowView { stage, ..flow }
}

/// The step that follows a step of the exchange with the monitor: the
/// exchange goes on, or the container that came of it is started, or its
/// failure ends the making.
pub open spec fn after_monitor(flow: FlowView, step: StepView) -> ProgressView {
    match step {
        StepView::Next(handshake, action) => ProgressView::Next(
            at_stage(flow, StageView::Monitor { handshake }),
            TaskView::Monitor(action),
        ),
        StepView::Done(container) => ProgressView::Next(
            at_stage(
                flow,
                StageView::Starting {
                    container,
                    call: runtime_call(seq!["start"@], container.id),
                },
            ),
            TaskView::Run(runtime_call(seq!["start"@], container.id)),
        ),
        StepView::Abort(e) => ProgressView::Abort(e, None),
    }
}

/// The container that a stage holds: the one that the monitor has brought
/// up and the runtime is about to start.
pub open spec fn brought_up(stage: StageView) -> Option<ContainerView> {
    match stage {
        StageView::Starting { container, .. } => Some(container),
        _ => None,
    }
}

/// The making of a container, one outcome at a time.
///
/// A directory is made and the image copied into it. A base directory is
/// made and the image unpacked into the bundle below it; then the bundle's
/// `exits` directory is created. The pipes are opened, the monitor is
/// launched with them, and the exchange with it is carried through. At last
/// the runtime starts the container. The failure of a tool, of the exchange
/// or of the system ends the making at once, and so does an outcome that was
/// not waited for. A container that was up by then is handed over with the
/// failure.
pub open spec fn flow_step(flow: FlowView, outcome: OutcomeView) -> ProgressView {
    match (flow.stage, outcome) {
        (_, OutcomeView::Failed { message }) => ProgressView::Abort(
            ErrorView::Io { message },
            brought_up(flow.stage),
        ),
        (StageView::ImageDir, OutcomeView::Dir { path }) => ProgressView::Next(
            at_stage(
                flow,
                StageView::Fetching {
                    src_dir: path,
                    call: fetch_call(flow.image_name, flow.image_tag, path),
                },
            ),
            TaskView::Run(fetch_call(flow.image_name, flow.image_tag, path)),
        ),
        (
            StageView::Fetching { src_dir, call },
            OutcomeView::Exited { success, stderr },
        ) => if success {
            ProgressView::Next(
                at_stage(flow, StageView::BaseDir { image: src_dir }),
                TaskView::MakeBaseDir,
            )
        } else {
            ProgressView::Abort(tool_failure(Tool::Copy, call, stderr), None)
        },
        (StageView::BaseDir { image }, OutcomeView::Dir { path }) => ProgressView::Next(
            at_stage(
                flow,
                StageView::Unpacking {
                    bundle: bundle_below(path),
                    call: unpack_call(image, bundle_below(path).bundle_dir),
                },
            ),
            TaskView::Run(unpack_call(image, bundle_below(path).bundle_dir)),
        ),
        (
            StageView::Unpacking { bundle, call },
            OutcomeView::Exited { success, stderr },
        ) => if success {
            ProgressView::Next(
                at_stage(flow, StageView::ExitsDir { bundle }),
                TaskView::MakeDir { path: bundle.exits_dir },
            )
        } else {
            ProgressView::Abort(tool_failure(Tool::Unpack, call, stderr), None)
        },
        (StageView::ExitsDir { bundle }, OutcomeView::Done) => ProgressView::Next(
            at_stage(flow, StageView::Pipes { bundle }),
            TaskView::OpenPipes,
        ),
        (
            StageView::Pipes { bundle },
            OutcomeView::Pipes { start_child, start_parent, sync_child },
        ) => ProgressView::Next(
            at_stage(
                flow,
                StageView::Spawning {
                    handshake: HandshakeView {
                        id: flow.name,
                        uuid: flow.uuid,
                        runtime: bundle,
                        phase: Phase::Signaling,
                    },
                    ready_fd: start_parent,
                },
            ),
            TaskView::Spawn(
                with_oci_pipes(monitor_call(flow.name, flow.uuid, bundle), start_child, sync_child),
            ),
        ),
        (StageView::Spawning { handshake, ready_fd }, OutcomeView::Done) => ProgressView::Next(
            at_stage(flow, StageView::Monitor { handshake }),
            TaskView::SignalReady { fd: ready_fd, signal: seq![0u8] },
        ),
        (StageView::Monitor { handshake }, OutcomeView::Monitor(event)) => after_monitor(
            flow,
            monitor_step(handshake, event),
        ),
        (
            StageView::Starting { container, call },
            OutcomeView::Exited { success, stderr },
        ) => if success {
            ProgressView::Done(container)
        } else {
            ProgressView::Abort(tool_failure(Tool::Runtime, call, stderr), Some(container))
        },
        _ => ProgressView::Abort(ErrorView::OutOfTurn, brought_up(flow.stage)),
    }
}

impl CreateFlow {
    /// Begins the making of the container `name` from `image`, whose console
    /// socket the monitor will keep under `uuid`. The first task is to make
    /// a directory for the image.
    pub fn begin(name: &str, uuid: &str, image: ImageRef) -> (r: (CreateFlow, Task))
        ensures
            r.0@ == (FlowView {
                name: name@,
                uuid: uuid@,
                image_name: image.name@,
                image_tag: image.tag@,
                stage: StageView::ImageDir,
            }),
            r.1@ == TaskView::MakeImageDir,
    {
        let flow = CreateFlow {
            name: String::from_str(name),
            uuid: String::from_str(uuid),
            image,
            stage: Stage::ImageDir,
        };
        (flow, Task::MakeImageDir)
    }

    /// The name under which the container will be registered.
    pub fn name(&self) -> (r: &str)
        ensures
            r@ == self@.name,
    {
        self.name.as_str()
    }

    fn go_on(name: String, uuid: String, image: ImageRef, stage: Stage, task: Task) -> (r: Progress)
        ensures
            r@ == ProgressView::Next(
                FlowView {
                    name: name@,
                    uuid: uuid@,
                    image_name: image.name@,
                    image_tag: image.tag@,
                    stage: stage@,
                },
                task@,
            ),
    {
        Progress::Next(CreateFlow { name, uuid, image, stage }, task)
    }

    /// Takes the making one task on.
    pub fn step(self, outcome: Outcome) -> (r: Progress)
        ensures
            r@ == flow_step(self@, outcome@),
    {
        let CreateFlow { name, uuid, image, stage } = self;
        match (stage, outcome) {
            (Stage::Starting { container, call }, outcome) => match outcome {
                Outcome::Exited(output) => match exec_command(Tool::Runtime, &call, output) {
                    Ok(_) => Progress::Done(container),
                    Err(e) => Progress::Abort(e, Some(container)),
                },
                Outcome::Failed { message } => Progress::Abort(
                    EngineError::Io { message },
                    Some(container),
                ),
                _ => Progress::Abort(EngineError::OutOfTurn, Some(container)),
            },
            (_, Outcome::Failed { message }) => Progress::Abort(EngineError::Io { message }, None),
            (Stage::ImageDir, Outcome::Dir { path }) => {
                let call = image.fetch(path.as_str());
                let task = Task::Run(image.fetch(path.as_str()));
                Self::go_on(name, uuid, image, Stage::Fetching { src_dir: path, call }, task)
            },
            (Stage::Fetching { src_dir, call }, Outcome::Exited(output)) => {
                match OciImage::fetched(src_dir.as_str(), &call, output) {
                    Ok(fetched) => Self::go_on(
                        name,
                        uuid,
                        image,
                        Stage::BaseDir { image: fetched },
                        Task::MakeBaseDir,
                    ),
                    Err(e) => Progress::Abort(e, None),
                }
            },
            (Stage::BaseDir { image: fetched }, Outcome::Dir { path }) => {
                let (bundle, call) = fetched.unpack(path.as_str());
                let task = Task::Run(fetched.unpack(path.as_str()).1);
                Self::go_on(name, uuid, image, Stage::Unpacking { bundle, call }, task)
            },
            (Stage::Unpacking { bundle, call }, Outcome::Exited(output)) => {
                match bundle.unpacked(&call, output) {
                    Ok(bundle) => {
                        let task = Task::MakeDir { path: String::from_str(bundle.exits_dir()) };
                        Self::go_on(name, uuid, image, Stage::ExitsDir { bundle }, task)
                    },
                    Err(e) => Progress::Abort(e, None),
                }
            },
            (Stage::ExitsDir { bundle }, Outcome::Done) => Self::go_on(
                name,
                uuid,
                image,
                Stage::Pipes { bundle },
                Task::OpenPipes,
            ),
            (Stage::Pipes { bundle }, Outcome::Pipes { start, sync }) => {
                let (handshake, call) = Handshake::begin(
                    name.as_str(),
                    uuid.as_str(),
                    bundle,
                    &start,
                    &sync,
                );
                Self::go_on(
                    name,
                    uuid,
                    image,
                    Stage::Spawning { handshake, start },
                    Task::Spawn(call),
                )
            },
            (Stage::Spawning { handshake, start }, Outcome::Done) => {
                let (fd, signal) = start.ready();
                Self::go_on(
                    name,
                    uuid,
                    image,
                    Stage::Monitor { handshake },
                    Task::SignalReady { fd, signal },
                )
            },
            (Stage::Monitor { handshake }, Outcome::Monitor(event)) => {
                match handshake.step(event) {
                    Step::Next(handshake, action) => Self::go_on(
                        name,
                        uuid,
                        image,
                        Stage::Monitor { handshake },
                        Task::Monitor(action),
                    ),
                    Step::Done(container) => {
                        let call = container.start();
                        let task = Task::Run(container.start());
                        Self::go_on(name, uuid, image, Stage::Starting { container, call }, task)
                    },
                    Step::Abort(e) => Progress::Abort(e, None),
                }
            },
            _ => Progress::Abort(EngineError::OutOfTurn, None),
        }
    }
}

/// A container comes out of the making only at its end: the runtime was
/// asked to start this very container and exited with success.
pub proof fn lemma_done_means_started(flow: FlowView, outcome: OutcomeView)
    requires
        flow_step(flow, outcome) is Done,
    ensures
        flow.stage is Starting,
        outcome is Exited && outcome->success,
        flow_step(flow, outcome)->Done_0 == flow.stage->Starting_container,
{
}

/// Whatever fails ends the making: after a failure of the system or of a
/// tool there is no further task and no container to register. A container
/// is handed over for release exactly where one was up already.
pub proof fn lemma_failure_ends_the_making(flow: FlowView, outcome: OutcomeView)
    ensures
        outcome is Failed ==> flow_step(flow, outcome) is Abort,
        outcome is Exited && !outcome->success ==> flow_step(flow, outcome) is Abort,
        flow_step(flow, outcome) is Abort ==> flow_step(flow, outcome)->Abort_1 == brought_up(
            flow.stage,
        ),
{
}

/// Whether what the stage holds belongs to this flow: the exchange with
/// the monitor, and the container that comes of it, bear the flow's name and
/// its identifier.
pub open spec fn coherent(flow: FlowView) -> bool {
    match flow.stage {
        StageView::Spawning { handshake, .. } => handshake.id == flow.name && handshake.uuid
            == flow.uuid,
        StageView::Monitor { handshake } => handshake.id == flow.name && handshake.uuid
            == flow.uuid,
        StageView::Starting { container, .. } => container.id == flow.name && container.uuid
            == flow.uuid,
        _ => true,
    }
}

/// The making from `progress` on, through `outcomes`. Once it is over,
/// further outcomes change nothing.
pub open spec fn flow_run(progress: ProgressView, outcomes: Seq<OutcomeView>) -> ProgressView
    decreases outcomes.len(),
{
    if outcomes.len() == 0 {
        progress
    } else {
        match progress {
            ProgressView::Next(flow, _) => flow_run(flow_step(flow, outcomes[0]), outcomes.skip(1)),
            _ => progress,
        }
    }
}

/// A step keeps the flow's name, identifier and image, and keeps it
/// coherent; and the container that a coherent flow hands out bears the flow's
/// name and identifier.
pub proof fn lemma_step_keeps_the_name(flow: FlowView, outcome: OutcomeView)
    requires
        coherent(flow),
    ensures
        flow_step(flow, outcome) is Next ==> coherent(flow_step(flow, outcome)->Next_0) && at_stage(
            flow_step(flow, outcome)->Next_0,
            flow.stage,
        ) == flow,
        flow_step(flow, outcome) is Done ==> flow_step(flow, outcome)->Done_0.id == flow.name
            && flow_step(flow, outcome)->Done_0.uuid == flow.uuid,
{
}

/// The container that comes of a making bears the name that the making was
/// begun for, and the identifier it was begun with, whatever happened on the
/// way.
pub proof fn lemma_made_container_bears_the_name(
    flow: FlowView,
    task: TaskView,
    outcomes: Seq<OutcomeView>,
)
    requires
        coherent(flow),
        flow_run(ProgressView::Next(flow, task), outcomes) is Done,
    ensures
        flow_run(ProgressView::Next(flow, task), outcomes)->Done_0.id == flow.name,
        flow_run(ProgressView::Next(flow, task), outcomes)->Done_0.uuid == flow.uuid,
    decreases outcomes.len(),
{
    if outcomes.len() > 0 {
        lemma_step_keeps_the_name(flow, outcomes[0]);
        match flow_step(flow, outcomes[0]) {
            ProgressView::Next(next, then) => {
                lemma_made_container_bears_the_name(next, then, outcomes.skip(1));
            },
            _ => {
                lemma_run_is_over(flow_step(flow, outcomes[0]), outcomes.skip(1));
            },
        }
    }
}

/// A making that is over stays as it is.
pub proof fn lemma_run_is_over(progress: ProgressView, outcomes: Seq<OutcomeView>)
    requires
        !(progress is Next),
    ensures
        flow_run(progress, outcomes) == progress,
{
}

} // verus!
