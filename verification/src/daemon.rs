//! The life of the daemon process, from its options to its exit code.
//!
//! The daemon loads its configuration, builds its device, mounts the image
//! it was started with, brings up the administrative channel, starts the
//! transport daemon and waits for it to end. Then it tells its workers to
//! leave and exits. The machine here says which step comes next and how the
//! process ends; its driver performs the steps and reports how they went.

use crate::api::{MountInfo, MountInfoView};
use crate::error::{Error, IoError};
use vstd::prelude::*;

verus! {

/// The exit code of a daemon that ended as it should.
pub const EXIT_OK: i32 = 0;

/// The exit code of a daemon that failed to start or whose transport failed.
pub const EXIT_FAILURE: i32 = 1;

/// What the daemon is started with. An empty `metadata` says that no image is
/// mounted at the start, an empty `apisock` that there is no administrative
/// channel.
#[derive(Debug, PartialEq, Eq)]
pub struct DaemonOptions {
    /// The path of the configuration file.
    pub config: String,
    /// The path of the vhost-user socket.
    pub sock: String,
    /// The path of the metadata file of the image to mount at the root.
    pub metadata: String,
    /// The path of the administrative socket.
    pub apisock: String,
}

/// Options as a mathematical value.
pub struct DaemonOptionsView {
    pub config: Seq<char>,
    pub sock: Seq<char>,
    pub metadata: Seq<char>,
    pub apisock: Seq<char>,
}

impl View for DaemonOptions {
    type V = DaemonOptionsView;

    open spec fn view(&self) -> DaemonOptionsView {
        DaemonOptionsView {
            config: self.config@,
            sock: self.sock@,
            metadata: self.metadata@,
            apisock: self.apisock@,
        }
    }
}

impl DaemonOptionsView {
    /// Whether an image is mounted at the start.
    pub open spec fn wants_root(self) -> bool {
        self.metadata.len() > 0
    }

    /// Whether the administrative channel is brought up.
    pub open spec fn wants_api(self) -> bool {
        self.apisock.len() > 0
    }

    /// The mount of the image the daemon is started with: at the root.
    pub open spec fn root_mount(self) -> MountInfoView {
        MountInfoView { source: self.metadata, mountpoint: "/"@ }
    }
}

/// Where the daemon stands.
#[derive(Clone, Copy, Debug, PartialEq, Eq, Structural)]
pub enum LifecyclePhase {
    LoadingConfig,
    CreatingDevice,
    MountingRoot,
    StartingApi,
    StartingDaemon,
    /// The transport daemon runs; the process waits for it to end.
    Running,
    /// The transport daemon has ended, with a failure or without; the workers
    /// are told to leave.
    Stopping(bool),
    /// The process exits with this code.
    Exited(i32),
}

/// What the driver has to do next.
#[derive(Debug, PartialEq, Eq)]
pub enum LifecycleAction {
    /// Read the configuration file at this path.
    LoadConfig(String),
    /// Build the device around an empty mount table.
    CreateDevice,
    /// Open and import this image and mount it.
    MountRoot(MountInfo),
    /// Bring up the administrative channel on this socket.
    StartApiServer(String),
    /// Start the transport daemon on this socket.
    StartDaemon(String),
    /// Wait until the transport daemon has ended.
    WaitDaemon,
    /// Signal the exit notification of the device.
    SignalExit,
    /// Exit with this code.
    Exit(i32),
}

/// An action as a mathematical value.
pub enum LifecycleActionView {
    LoadConfig(Seq<char>),
    CreateDevice,
    MountRoot(MountInfoView),
    StartApiServer(Seq<char>),
    StartDaemon(Seq<char>),
    WaitDaemon,
    SignalExit,
    Exit(i32),
}

impl View for LifecycleAction {
    type V = LifecycleActionView;

    open spec fn view(&self) -> LifecycleActionView {
        match self {
            LifecycleAction::LoadConfig(path) => LifecycleActionView::LoadConfig(path@),
            LifecycleAction::CreateDevice => LifecycleActionView::CreateDevice,
            LifecycleAction::MountRoot(info) => LifecycleActionView::MountRoot(info@),
            LifecycleAction::StartApiServer(path) => LifecycleActionView::StartApiServer(path@),
            LifecycleAction::StartDaemon(path) => LifecycleActionView::StartDaemon(path@),
            LifecycleAction::WaitDaemon => LifecycleActionView::WaitDaemon,
            LifecycleAction::SignalExit => LifecycleActionView::SignalExit,
            LifecycleAction::Exit(code) => LifecycleActionView::Exit(*code),
        }
    }
}

/// The state of the daemon as a mathematical value.
pub struct LifecycleState {
    pub options: DaemonOptionsView,
    pub phase: LifecyclePhase,
}

impl LifecycleState {
    /// The state in which the daemon starts.
    pub open spec fn init(options: DaemonOptionsView) -> LifecycleState {
        LifecycleState { options, phase: LifecyclePhase::LoadingConfig }
    }

    /// The phase that follows the mount of the root image, or the creation of
    /// the device where no image is mounted.
    pub open spec fn after_root(self) -> LifecyclePhase {
        if self.options.wants_api() {
            LifecyclePhase::StartingApi
        } else {
            LifecyclePhase::StartingDaemon
        }
    }

    /// The phase that follows the creation of the device.
    pub open spec fn after_device(self) -> LifecyclePhase {
        if self.options.wants_root() {
            LifecyclePhase::MountingRoot
        } else {
            self.after_root()
        }
    }

    /// The state after the pending step went well (`true`) or failed.
    ///
    /// A step of the start that fails ends the process with a failure at
    /// once. How the transport daemon ended decides the exit code; the exit
    /// notification is signalled in either case, and how that went changes
    /// nothing.
    pub open spec fn step(self, succeeded: bool) -> LifecycleState {
        let phase = match self.phase {
            LifecyclePhase::LoadingConfig => if succeeded {
                LifecyclePhase::CreatingDevice
            } else {
                LifecyclePhase::Exited(EXIT_FAILURE)
            },
            LifecyclePhase::CreatingDevice => if succeeded {
                self.after_device()
            } else {
                LifecyclePhase::Exited(EXIT_FAILURE)
            },
            LifecyclePhase::MountingRoot => if succeeded {
                self.after_root()
            } else {
                LifecyclePhase::Exited(EXIT_FAILURE)
            },
            LifecyclePhase::StartingApi => if succeeded {
                LifecyclePhase::StartingDaemon
            } else {
                LifecyclePhase::Exited(EXIT_FAILURE)
            },
            LifecyclePhase::StartingDaemon => if succeeded {
                LifecyclePhase::Running
            } else {
                LifecyclePhase::Exited(EXIT_FAILURE)
            },
            LifecyclePhase::Running => LifecyclePhase::Stopping(!succeeded),
            LifecyclePhase::Stopping(failed) => LifecyclePhase::Exited(
                if failed {
                    EXIT_FAILURE
                } else {
                    EXIT_OK
                },
            ),
            LifecyclePhase::Exited(code) => LifecyclePhase::Exited(code),
        };
        LifecycleState { phase, ..self }
    }

    /// What the state asks its driver to do.
    pub open spec fn pending(self) -> LifecycleActionView {
        match self.phase {
            LifecyclePhase::LoadingConfig => LifecycleActionView::LoadConfig(self.options.config),
            LifecyclePhase::CreatingDevice => LifecycleActionView::CreateDevice,
            LifecyclePhase::MountingRoot => LifecycleActionView::MountRoot(
                self.options.root_mount(),
            ),
            LifecyclePhase::StartingApi => LifecycleActionView::StartApiServer(
                self.options.apisock,
            ),
            LifecyclePhase::StartingDaemon => LifecycleActionView::StartDaemon(self.options.sock),
            LifecyclePhase::Running => LifecycleActionView::WaitDaemon,
            LifecyclePhase::Stopping(_) => LifecycleActionView::SignalExit,
            LifecyclePhase::Exited(code) => LifecycleActionView::Exit(code),
        }
    }

    /// The state after a sequence of outcomes, first to last.
    pub open spec fn after(self, outcomes: Seq<bool>) -> LifecycleState
        decreases outcomes.len(),
    {
        if outcomes.len() == 0 {
            self
        } else {
            self.step(outcomes[0]).after(outcomes.skip(1))
        }
    }

    /// The state after the first `steps` steps all went well.
    pub open spec fn after_successes(self, steps: nat) -> LifecycleState
        decreases steps,
    {
        if steps == 0 {
            self
        } else {
            self.step(true).after_successes((steps - 1) as nat)
        }
    }

    /// How often the exit notification is signalled over a sequence of
    /// outcomes: once for each outcome that answers the request to signal it.
    pub open spec fn exit_signals(self, outcomes: Seq<bool>) -> nat
        decreases outcomes.len(),
    {
        if outcomes.len() == 0 {
            0
        } else {
            let now: nat = if self.phase is Stopping {
                1
            } else {
                0
            };
            now + self.step(outcomes[0]).exit_signals(outcomes.skip(1))
        }
    }
}

/// The steps of a daemon with these options when nothing fails, first to
/// last.
pub open spec fn plan(options: DaemonOptionsView) -> Seq<LifecycleActionView> {
    let start = seq![
        LifecycleActionView::LoadConfig(options.config),
        LifecycleActionView::CreateDevice,
    ];
    let root = if options.wants_root() {
        seq![LifecycleActionView::MountRoot(options.root_mount())]
    } else {
        Seq::empty()
    };
    let api = if options.wants_api() {
        seq![LifecycleActionView::StartApiServer(options.apisock)]
    } else {
        Seq::empty()
    };
    let run = seq![
        LifecycleActionView::StartDaemon(options.sock),
        LifecycleActionView::WaitDaemon,
        LifecycleActionView::SignalExit,
        LifecycleActionView::Exit(EXIT_OK),
    ];
    start + root + api + run
}

/// The life of one daemon process.
pub struct Lifecycle {
    options: DaemonOptions,
    phase: LifecyclePhase,
}

impl View for Lifecycle {
    type V = LifecycleState;

    closed spec fn view(&self) -> LifecycleState {
        LifecycleState { options: self.options@, phase: self.phase }
    }
}

impl Lifecycle {
    /// A daemon that has done nothing yet.
    pub fn new(options: DaemonOptions) -> (daemon: Lifecycle)
        ensures
            daemon@ == LifecycleState::init(options@),
    {
        Lifecycle { options, phase: LifecyclePhase::LoadingConfig }
    }

    /// Where the daemon stands.
    pub fn phase(&self) -> (phase: LifecyclePhase)
        ensures
            phase == self@.phase,
    {
        self.phase
    }

    /// The mount of the image the daemon is started with: at the root.
    pub fn root_mount(&self) -> (info: MountInfo)
        ensures
            info@ == self@.options.root_mount(),
    {
        MountInfo { source: self.options.metadata.clone(), mountpoint: "/".to_owned() }
    }

    /// What the driver has to do now.
    pub fn pending(&self) -> (action: LifecycleAction)
        ensures
            action@ == self@.pending(),
    {
        match self.phase {
            LifecyclePhase::LoadingConfig => LifecycleAction::LoadConfig(
                self.options.config.clone(),
            ),
            LifecyclePhase::CreatingDevice => LifecycleAction::CreateDevice,
            LifecyclePhase::MountingRoot => LifecycleAction::MountRoot(self.root_mount()),
            LifecyclePhase::StartingApi => LifecycleAction::StartApiServer(
                self.options.apisock.clone(),
            ),
            LifecyclePhase::StartingDaemon => LifecycleAction::StartDaemon(
                self.options.sock.clone(),
            ),
            LifecyclePhase::Running => LifecycleAction::WaitDaemon,
            LifecyclePhase::Stopping(_) => LifecycleAction::SignalExit,
            LifecyclePhase::Exited(code) => LifecycleAction::Exit(code),
        }
    }

    fn after_root(&self) -> (phase: LifecyclePhase)
        ensures
            phase == self@.after_root(),
    {
        if self.options.apisock.as_str().is_empty() {
            LifecyclePhase::StartingDaemon
        } else {
            LifecyclePhase::StartingApi
        }
    }

    fn after_device(&self) -> (phase: LifecyclePhase)
        ensures
            phase == self@.after_device(),
    {
        if self.options.metadata.as_str().is_empty() {
            self.after_root()
        } else {
            LifecyclePhase::MountingRoot
        }
    }

    /// Takes in how the pending step went and says what to do next.
    pub fn step(&mut self, succeeded: bool) -> (action: LifecycleAction)
        ensures
            final(self)@ == old(self)@.step(succeeded),
            action@ == final(self)@.pending(),
    {
        let next = match self.phase {
            LifecyclePhase::LoadingConfig => if succeeded {
                LifecyclePhase::CreatingDevice
            } else {
                LifecyclePhase::Exited(EXIT_FAILURE)
            },
            LifecyclePhase::CreatingDevice => if succeeded {
                self.after_device()
            } else {
                LifecyclePhase::Exited(EXIT_FAILURE)
            },
            LifecyclePhase::MountingRoot => if succeeded {
                self.after_root()
            } else {
                LifecyclePhase::Exited(EXIT_FAILURE)
            },
            LifecyclePhase::StartingApi => if succeeded {
                LifecyclePhase::StartingDaemon
            } else {
                LifecyclePhase::Exited(EXIT_FAILURE)
            },
            LifecyclePhase::StartingDaemon => if succeeded {
                LifecyclePhase::Running
            } else {
                LifecyclePhase::Exited(EXIT_FAILURE)
            },
            LifecyclePhase::Running => LifecyclePhase::Stopping(!succeeded),
            LifecyclePhase::Stopping(failed) => LifecyclePhase::Exited(
                if failed {
                    EXIT_FAILURE
                } else {
                    EXIT_OK
                },
            ),
            LifecyclePhase::Exited(code) => LifecyclePhase::Exited(code),
        };
        self.phase = next;
        self.pending()
    }
}

/// The steps that bring up the administrative channel, in their order.
#[derive(Clone, Copy, Debug, PartialEq, Eq, Structural)]
pub enum ApiStartStep {
    /// Create the event handle that wakes the control loop.
    CreateEvent,
    /// Duplicate that handle for the HTTP side.
    CloneEvent,
    /// Start the thread that runs the control loop.
    SpawnHandler,
    /// Start the HTTP side.
    StartHttp,
}

/// Why the administrative channel did not come up.
#[derive(Clone, Copy, Debug, PartialEq, Eq, Structural)]
pub enum ApiStartError {
    /// A step of the daemon's own failed.
    Device(Error),
    /// The HTTP side failed to start.
    Http(IoError),
}

/// The failure that a failed step of bringing up the administrative channel
/// is reported as.
pub open spec fn start_failure(step: ApiStartStep, e: IoError) -> ApiStartError {
    match step {
        ApiStartStep::CreateEvent => ApiStartError::Device(Error::Epoll(e)),
        ApiStartStep::CloneEvent => ApiStartError::Device(Error::EventFdClone(e)),
        ApiStartStep::SpawnHandler => ApiStartError::Device(Error::ThreadSpawn(e)),
        ApiStartStep::StartHttp => ApiStartError::Http(e),
    }
}

/// The step that follows a step that went well; `None` after the last.
pub open spec fn start_successor(step: ApiStartStep) -> Option<ApiStartStep> {
    match step {
        ApiStartStep::CreateEvent => Some(ApiStartStep::CloneEvent),
        ApiStartStep::CloneEvent => Some(ApiStartStep::SpawnHandler),
        ApiStartStep::SpawnHandler => Some(ApiStartStep::StartHttp),
        ApiStartStep::StartHttp => None,
    }
}

/// Takes in how one step of bringing up the administrative channel went and
/// says which step is next. The first step is `CreateEvent`. A failure ends
/// the start: that of creating the handle counts as a polling failure, that
/// of duplicating it and that of starting the thread as what they are, and a
/// failure of the HTTP side is handed on as it came.
pub fn start_api_server(step: ApiStartStep, outcome: Result<(), IoError>) -> (r: Result<
    Option<ApiStartStep>,
    ApiStartError,
>)
    ensures
        match outcome {
            Ok(_) => r == Ok::<Option<ApiStartStep>, ApiStartError>(start_successor(step)),
            Err(e) => r == Err::<Option<ApiStartStep>, ApiStartError>(start_failure(step, e)),
        },
{
    match outcome {
        Ok(_) => Ok(
            match step {
                ApiStartStep::CreateEvent => Some(ApiStartStep::CloneEvent),
                ApiStartStep::CloneEvent => Some(ApiStartStep::SpawnHandler),
                ApiStartStep::SpawnHandler => Some(ApiStartStep::StartHttp),
                ApiStartStep::StartHttp => None,
            },
        ),
        Err(e) => Err(
            match step {
                ApiStartStep::CreateEvent => ApiStartError::Device(Error::Epoll(e)),
                ApiStartStep::CloneEvent => ApiStartError::Device(Error::EventFdClone(e)),
                ApiStartStep::SpawnHandler => ApiStartError::Device(Error::ThreadSpawn(e)),
                ApiStartStep::StartHttp => ApiStartError::Http(e),
            },
        ),
    }
}

/// A daemon goes through its plan in order while nothing fails: after any
/// number of steps that went well, what it asks for is the step of the plan
/// at that place. So the image is mounted at the root before the
/// administrative channel comes up, both before the transport daemon is
/// started, and the exit notification is signalled after the transport daemon
/// has ended.
pub proof fn lemma_daemon_follows_plan(options: DaemonOptionsView, steps: nat)
    requires
        steps < plan(options).len(),
    ensures
        LifecycleState::init(options).after_successes(steps).pending() == plan(options)[steps as int],
{
    reveal_with_fuel(LifecycleState::after_successes, 9);
}

/// A step of the start that fails ends the process at once, with a failure:
/// nothing is started after it.
pub proof fn lemma_failed_start_exits(s: LifecycleState)
    requires
        !(s.phase is Running),
        !(s.phase is Stopping),
        !(s.phase is Exited),
    ensures
        s.step(false).pending() == LifecycleActionView::Exit(EXIT_FAILURE),
{
}

/// A process that has its exit code keeps it, whatever is reported.
pub proof fn lemma_exited_stays(s: LifecycleState, outcomes: Seq<bool>)
    requires
        s.phase is Exited,
    ensures
        s.after(outcomes) == s,
        s.exit_signals(outcomes) == 0,
    decreases outcomes.len(),
{
    if outcomes.len() > 0 {
        lemma_exited_stays(s.step(outcomes[0]), outcomes.skip(1));
    }
}

proof fn lemma_exit_signals(s: LifecycleState, outcomes: Seq<bool>)
    ensures
        s.exit_signals(outcomes) <= 1,
        !(s.phase is Exited) && s.after(outcomes).phase == LifecyclePhase::Exited(EXIT_OK)
            ==> s.exit_signals(outcomes) == 1,
    decreases outcomes.len(),
{
    if outcomes.len() > 0 {
        let next = s.step(outcomes[0]);
        let rest = outcomes.skip(1);
        if next.phase is Exited {
            lemma_exited_stays(next, rest);
        }
        if s.phase is Exited {
            lemma_exited_stays(s, outcomes);
        }
        lemma_exit_signals(next, rest);
    }
}

/// The exit notification is signalled at most once in the life of a daemon,
/// whatever happens; and a daemon that exits with success has signalled it
/// exactly once.
pub proof fn lemma_exit_is_signalled_once(options: DaemonOptionsView, outcomes: Seq<bool>)
    ensures
        LifecycleState::init(options).exit_signals(outcomes) <= 1,
        LifecycleState::init(options).after(outcomes).phase == LifecyclePhase::Exited(EXIT_OK)
            ==> LifecycleState::init(options).exit_signals(outcomes) == 1,
{
    lemma_exit_signals(LifecycleState::init(options), outcomes);
}

} // verus!
