//! The endpoint of the IPC server: who may connect to it, what stands there
//! before it is opened, and the order in which it is opened and closed.
use crate::native::{Platform, S_IRGRP, S_IROTH, S_IRUSR, S_IWGRP, S_IWOTH, S_IWUSR};
use crate::paths::{parent_of, parents_lose_the_last_component, PathPartView, ServicePath};
use vstd::prelude::*;
use vstd::string::*;

verus! {

/// Who may use the control pipe on Windows: the system and administrators for
/// everything, authenticated users for reading and writing.
pub const WINDOWS_CONTROL_PIPE_SDDL: &'static str =
    "D:P(A;;GA;;;SY)(A;;GA;;;BA)(A;;0x0012019b;;;AU)";

/// Who may use the control pipe of a test build, which no system account opens.
pub const WINDOWS_TEST_CONTROL_PIPE_SDDL: &'static str =
    "D:P(A;;GA;;;SY)(A;;GA;;;BA)(A;;GA;;;AU)";

/// How long an answer may take to be written, in milliseconds.
pub const IPC_HANDLER_TIMEOUT_MS: u64 = 25000;

/// How long a socket is tried before it is taken for stale, in milliseconds.
pub const SOCKET_PROBE_TIMEOUT_MS: u64 = 500;

/// How long Windows takes to let go of a closed pipe, in milliseconds.
pub const PIPE_CLOSE_PAUSE_MS: u64 = 70;

/// The mode of the directory of the control socket.
pub const CONTROL_DIRECTORY_MODE: u32 = 0o755;

/// Who may connect to a listener.
#[derive(Clone, Copy, Debug)]
pub enum ListenerAccess {
    Mode(u32),
    SecurityDescriptor(&'static str),
}

/// How the server is set up.
#[derive(Clone, Copy, Debug)]
pub struct ServerSetup {
    pub write_timeout_ms: u64,
    pub access: ListenerAccess,
}

/// How the server is set up: on Unix everyone may read and write the socket, and
/// requests are authenticated one by one; on Windows the pipe has a descriptor.
pub fn create_ipc_server(platform: Platform, test_build: bool) -> (setup: ServerSetup)
    ensures
        setup.write_timeout_ms == IPC_HANDLER_TIMEOUT_MS,
        platform != Platform::Windows ==> setup.access == ListenerAccess::Mode(0o666),
        platform == Platform::Windows ==> (setup.access matches ListenerAccess::SecurityDescriptor(
            descriptor,
        ) && descriptor@ == (if test_build {
            WINDOWS_TEST_CONTROL_PIPE_SDDL@
        } else {
            WINDOWS_CONTROL_PIPE_SDDL@
        })),
        is_setup(platform, test_build, setup),
{
    let access: ListenerAccess = if platform == Platform::Windows {
        if test_build {
            ListenerAccess::SecurityDescriptor(WINDOWS_TEST_CONTROL_PIPE_SDDL)
        } else {
            ListenerAccess::SecurityDescriptor(WINDOWS_CONTROL_PIPE_SDDL)
        }
    } else {
        assert(0o400u32 | 0o200u32 | 0o040u32 | 0o020u32 | 0o004u32 | 0o002u32 == 0o666u32)
            by (bit_vector);
        ListenerAccess::Mode(S_IRUSR | S_IWUSR | S_IRGRP | S_IWGRP | S_IROTH | S_IWOTH)
    };
    ServerSetup { write_timeout_ms: IPC_HANDLER_TIMEOUT_MS, access }
}

/// A directory that has to exist, to belong to the service and to have a mode.
#[derive(Debug)]
pub struct SecuredDirectory {
    pub path: ServicePath,
    pub mode: u32,
}

/// What the directory of the control socket has to be like: everyone may look
/// into it, only the service may change it.
pub fn ensure_control_runtime_dir(dir: ServicePath) -> (secured: SecuredDirectory)
    ensures
        secured.path == dir,
        secured.mode == CONTROL_DIRECTORY_MODE,
        is_control_directory(dir, secured),
{
    SecuredDirectory { path: dir, mode: CONTROL_DIRECTORY_MODE }
}

/// The directory that has to be there before the endpoint is opened: the one of
/// the socket on Unix, none for a pipe.
pub open spec fn endpoint_directory(platform: Platform, ipc_path: Seq<PathPartView>) -> Option<
    Seq<PathPartView>,
> {
    if platform == Platform::Windows {
        None
    } else {
        parent_of(ipc_path)
    }
}

/// The directory that has to be there before the endpoint is opened.
pub fn make_ipc_dir(platform: Platform, ipc_path: &ServicePath) -> (secured: Option<
    SecuredDirectory,
>)
    ensures
        secured is Some <==> endpoint_directory(platform, ipc_path@) is Some,
        secured matches Some(directory) ==> Some(directory.path@) == endpoint_directory(
            platform,
            ipc_path@,
        ) && directory.mode == CONTROL_DIRECTORY_MODE,
{
    if platform == Platform::Windows {
        return None;
    }
    match ipc_path.parent() {
        Some(dir) => Some(ensure_control_runtime_dir(dir)),
        None => None,
    }
}

/// What is known of the endpoint before it is opened.
#[derive(Clone, Copy, Debug, PartialEq, Eq, Structural)]
pub enum SocketFinding {
    Exists(bool),
    /// Whether something answered within the time that it was given.
    Reachable(bool),
}

/// What is done about a socket that may be stale.
#[derive(Clone, Copy, Debug, PartialEq, Eq, Structural)]
pub enum SocketStep {
    LeaveInPlace,
    Probe { timeout_ms: u64 },
    Remove,
}

/// Decides about a socket that may be stale: one that exists is tried, and only
/// one that does not answer is removed. A pipe is never touched.
pub fn cleanup_stale_ipc_socket(platform: Platform, finding: SocketFinding) -> (step: SocketStep)
    ensures
        step == (if platform == Platform::Windows {
            SocketStep::LeaveInPlace
        } else {
            match finding {
                SocketFinding::Exists(true) => SocketStep::Probe {
                    timeout_ms: SOCKET_PROBE_TIMEOUT_MS,
                },
                SocketFinding::Reachable(false) => SocketStep::Remove,
                _ => SocketStep::LeaveInPlace,
            }
        }),
        step == socket_step(platform, finding),
{
    if platform == Platform::Windows {
        return SocketStep::LeaveInPlace;
    }
    match finding {
        SocketFinding::Exists(exists) => {
            if exists {
                SocketStep::Probe { timeout_ms: SOCKET_PROBE_TIMEOUT_MS }
            } else {
                SocketStep::LeaveInPlace
            }
        },
        SocketFinding::Reachable(reachable) => {
            if reachable {
                SocketStep::LeaveInPlace
            } else {
                SocketStep::Remove
            }
        },
    }
}

/// Whether the endpoint has to be removed once the server is closed: a socket
/// that is still there does, a pipe goes by itself.
pub fn cleanup_ipc_path(platform: Platform, exists: bool) -> (remove: bool)
    ensures
        remove == (platform != Platform::Windows && exists),
        remove == path_is_removed(platform, exists),
{
    platform != Platform::Windows && exists
}

/// Why the server was not started.
#[derive(Debug)]
pub enum ServerStartError {
    Failed(String),
    Configuration(String),
}

/// The start of the server.
#[derive(Debug)]
pub enum ServerStart {
    MakeDirectory,
    CleanStaleSocket,
    InitState,
    TakeServer,
    Serving,
    Refused { error: ServerStartError },
}

/// How a step of the start ended.
#[derive(Debug)]
pub enum ServerStartEvent {
    Done,
    Failed(String),
    /// Whether a server was there to be taken.
    Taken(bool),
}

/// Whether an event can end a step of the start.
pub open spec fn server_start_event_fits(pending: ServerStart, event: ServerStartEvent) -> bool {
    match pending {
        ServerStart::TakeServer => event is Taken,
        ServerStart::Serving => false,
        ServerStart::Refused { .. } => false,
        _ => event is Done || event is Failed,
    }
}

/// What follows when the pending step of the start ends.
pub open spec fn server_start_follows(
    pending: ServerStart,
    event: ServerStartEvent,
    next: ServerStart,
) -> bool {
    match (pending, event) {
        (_, ServerStartEvent::Failed(error)) => next == (ServerStart::Refused {
            error: ServerStartError::Failed(error),
        }),
        (ServerStart::MakeDirectory, _) => next is CleanStaleSocket,
        (ServerStart::CleanStaleSocket, _) => next is InitState,
        (ServerStart::InitState, _) => next is TakeServer,
        (ServerStart::TakeServer, ServerStartEvent::Taken(found)) => if found {
            next is Serving
        } else {
            next matches ServerStart::Refused {
                error: ServerStartError::Configuration(message),
            } && message@ == "IPC server not initialized"@
        },
        _ => false,
    }
}

/// Decides what follows when the pending step of starting the server has ended.
pub fn run_ipc_server(pending: ServerStart, event: ServerStartEvent) -> (next: ServerStart)
    requires
        server_start_event_fits(pending, event),
    ensures
        server_start_follows(pending, event, next),
{
    match (pending, event) {
        (_, ServerStartEvent::Failed(error)) => ServerStart::Refused {
            error: ServerStartError::Failed(error),
        },
        (ServerStart::MakeDirectory, _) => ServerStart::CleanStaleSocket,
        (ServerStart::CleanStaleSocket, _) => ServerStart::InitState,
        (ServerStart::InitState, _) => ServerStart::TakeServer,
        (ServerStart::TakeServer, ServerStartEvent::Taken(true)) => ServerStart::Serving,
        _ => ServerStart::Refused {
            error: ServerStartError::Configuration("IPC server not initialized".to_owned()),
        },
    }
}

/// Whether `stages` are those of one start of the server, `events` being how its
/// steps ended.
pub open spec fn is_server_start(stages: Seq<ServerStart>, events: Seq<ServerStartEvent>) -> bool {
    &&& stages.len() == events.len() + 1
    &&& stages[0] is MakeDirectory
    &&& forall|i: int|
        #![trigger events[i]]
        0 <= i < events.len() ==> {
            &&& server_start_event_fits(stages[i], events[i])
            &&& server_start_follows(stages[i], events[i], stages[i + 1])
        }
}

/// A server serves only once its directory was made, a stale socket was cleaned
/// up and it was set up, in this order.
pub proof fn server_serves_behind_all_steps(
    stages: Seq<ServerStart>,
    events: Seq<ServerStartEvent>,
)
    requires
        is_server_start(stages, events),
        stages.last() is Serving,
    ensures
        events == seq![
            ServerStartEvent::Done,
            ServerStartEvent::Done,
            ServerStartEvent::Done,
            ServerStartEvent::Taken(true),
        ],
{
    assert(events.len() > 0);
    let _ = events[0];
    if events.len() > 1 {
        let _ = events[1];
    }
    if events.len() > 2 {
        let _ = events[2];
    }
    if events.len() > 3 {
        let _ = events[3];
    }
    if events.len() > 4 {
        let _ = events[4];
    }
}

/// The stop of the server.
#[derive(Debug)]
pub enum ServerStop {
    StopCore,
    SignalServer,
    AwaitServer,
    ShutDownServer,
    CleanPath,
    Pause { delay_ms: u64 },
    Finished { result: Result<(), String> },
}

/// Whether an outcome can end a step of the stop: only stopping the core and
/// removing the endpoint can fail.
pub open spec fn server_stop_outcome_fits(
    pending: ServerStop,
    outcome: Result<(), String>,
) -> bool {
    match pending {
        ServerStop::StopCore => true,
        ServerStop::CleanPath => true,
        ServerStop::Finished { .. } => false,
        _ => outcome is Ok,
    }
}

/// What follows when the pending step of the stop ends.
pub open spec fn server_stop_follows(
    platform: Platform,
    pending: ServerStop,
    outcome: Result<(), String>,
    next: ServerStop,
) -> bool {
    match (pending, outcome) {
        (ServerStop::Finished { .. }, _) => false,
        (_, Err(error)) => next == (ServerStop::Finished { result: Err(error) }),
        (ServerStop::StopCore, _) => next is SignalServer,
        (ServerStop::SignalServer, _) => next is AwaitServer,
        (ServerStop::AwaitServer, _) => next is ShutDownServer,
        (ServerStop::ShutDownServer, _) => next is CleanPath,
        (ServerStop::CleanPath, _) => if platform == Platform::Windows {
            next == (ServerStop::Pause { delay_ms: PIPE_CLOSE_PAUSE_MS })
        } else {
            next == (ServerStop::Finished { result: Ok(()) })
        },
        (ServerStop::Pause { .. }, _) => next == (ServerStop::Finished { result: Ok(()) }),
    }
}

/// Decides what follows when the pending step of stopping the server has ended.
pub fn stop_ipc_server(
    platform: Platform,
    pending: ServerStop,
    outcome: Result<(), String>,
) -> (next: ServerStop)
    requires
        server_stop_outcome_fits(pending, outcome),
    ensures
        server_stop_follows(platform, pending, outcome, next),
{
    if let Err(error) = outcome {
        return ServerStop::Finished { result: Err(error) };
    }
    match pending {
        ServerStop::StopCore => ServerStop::SignalServer,
        ServerStop::SignalServer => ServerStop::AwaitServer,
        ServerStop::AwaitServer => ServerStop::ShutDownServer,
        ServerStop::ShutDownServer => ServerStop::CleanPath,
        ServerStop::CleanPath => {
            if platform == Platform::Windows {
                ServerStop::Pause { delay_ms: PIPE_CLOSE_PAUSE_MS }
            } else {
                ServerStop::Finished { result: Ok(()) }
            }
        },
        _ => ServerStop::Finished { result: Ok(()) },
    }
}

/// Whether `stages` are those of one stop of the server, `outcomes` being how
/// its steps ended.
pub open spec fn is_server_stop(
    platform: Platform,
    stages: Seq<ServerStop>,
    outcomes: Seq<Result<(), String>>,
) -> bool {
    &&& stages.len() == outcomes.len() + 1
    &&& stages[0] is StopCore
    &&& forall|i: int|
        #![trigger outcomes[i]]
        0 <= i < outcomes.len() ==> {
            &&& server_stop_outcome_fits(stages[i], outcomes[i])
            &&& server_stop_follows(platform, stages[i], outcomes[i], stages[i + 1])
        }
}

/// The server is signalled, and its endpoint removed, only after the core was
/// stopped: a core that cannot be stopped keeps its server.
pub proof fn server_outlives_its_core(
    platform: Platform,
    stages: Seq<ServerStop>,
    outcomes: Seq<Result<(), String>>,
    at: int,
)
    requires
        is_server_stop(platform, stages, outcomes),
        0 < at < stages.len(),
        !(stages[at] is Finished),
    ensures
        outcomes[0] is Ok,
        stages[at] is CleanPath ==> at == 4 && stages[2] is AwaitServer && stages[3]
            is ShutDownServer,
{
    let _ = outcomes[0];
    if at > 1 {
        let _ = outcomes[1];
    }
    if at > 2 {
        let _ = outcomes[2];
    }
    if at > 3 {
        let _ = outcomes[3];
    }
    if at > 4 {
        let _ = outcomes[4];
    }
    if at > 5 {
        let _ = outcomes[5];
    }
    if at > 6 {
        let _ = outcomes[6];
    }
}

/// A stop that cannot stop the core ends there, with that failure: the server is
/// not signalled, and its endpoint stays.
pub proof fn failed_core_stop_keeps_the_server(
    platform: Platform,
    stages: Seq<ServerStop>,
    outcomes: Seq<Result<(), String>>,
)
    requires
        is_server_stop(platform, stages, outcomes),
        outcomes.len() > 0,
        outcomes[0] is Err,
    ensures
        stages.len() == 2,
        stages.last() == (ServerStop::Finished { result: outcomes[0] }),
{
    let _ = outcomes[0];
    if outcomes.len() > 1 {
        let _ = outcomes[1];
    }
}

/// A start or a stop of the server that has its turn. Starts and stops take turns,
/// one at a time. `present` is the listener that was there when the turn was taken.
pub enum LifecycleTurn {
    Start { starting: ServerStart, present: Option<nat> },
    Stop { stopping: ServerStop, present: Option<nat> },
}

/// The endpoint: who has the turn, the listener whose socket is there, and how many
/// listeners there were so far. Listeners are numbered in the order in which they
/// are started.
pub struct Endpoint {
    pub turn: Option<LifecycleTurn>,
    pub listener: Option<nat>,
    pub started: nat,
}

/// Something that happens to the endpoint.
pub enum LifecycleMove {
    /// A start or a stop takes its turn.
    BeginStart,
    BeginStop,
    /// The pending step of the one that has the turn ends.
    StartStep { event: ServerStartEvent, begun: ServerStart },
    StopStep { outcome: Result<(), String>, ended: ServerStop },
    /// The one that has the turn has come to its end, and gives the turn up.
    EndTurn,
    /// The listener ends by itself, and takes its socket with it.
    ListenerEnds,
}

/// What becomes of the endpoint. A turn is taken only where nobody has it; only who
/// has it starts a listener, or removes its socket.
pub open spec fn endpoint_follows(
    platform: Platform,
    before: Endpoint,
    done: LifecycleMove,
    after: Endpoint,
) -> bool {
    match (done, before.turn) {
        (LifecycleMove::BeginStart, None) => after == Endpoint {
            turn: Some(
                LifecycleTurn::Start {
                    starting: ServerStart::MakeDirectory,
                    present: before.listener,
                },
            ),
            ..before
        },
        (LifecycleMove::BeginStop, None) => after == Endpoint {
            turn: Some(
                LifecycleTurn::Stop { stopping: ServerStop::StopCore, present: before.listener },
            ),
            ..before
        },
        (
            LifecycleMove::StartStep { event, begun },
            Some(LifecycleTurn::Start { starting, present }),
        ) => {
            &&& server_start_event_fits(starting, event)
            &&& server_start_follows(starting, event, begun)
            &&& after == Endpoint {
                turn: Some(LifecycleTurn::Start { starting: begun, present }),
                listener: if begun is Serving {
                    Some(before.started)
                } else {
                    before.listener
                },
                started: if begun is Serving {
                    before.started + 1
                } else {
                    before.started
                },
            }
        },
        (
            LifecycleMove::StopStep { outcome, ended },
            Some(LifecycleTurn::Stop { stopping, present }),
        ) => {
            &&& server_stop_outcome_fits(stopping, outcome)
            &&& server_stop_follows(platform, stopping, outcome, ended)
            &&& after == Endpoint {
                turn: Some(LifecycleTurn::Stop { stopping: ended, present }),
                listener: if stopping is CleanPath && outcome is Ok {
                    None
                } else {
                    before.listener
                },
                ..before
            }
        },
        (LifecycleMove::EndTurn, Some(turn)) => {
            &&& match turn {
                LifecycleTurn::Start { starting, .. } => starting is Serving || starting is Refused,
                LifecycleTurn::Stop { stopping, .. } => stopping is Finished,
            }
            &&& after == Endpoint { turn: None, ..before }
        },
        (LifecycleMove::ListenerEnds, _) => after == Endpoint { listener: None, ..before },
        _ => false,
    }
}

/// Whether `endpoints` is what an endpoint was before and after each of `moves`, from
/// the time on at which nobody had the turn.
pub open spec fn is_lifecycle(
    platform: Platform,
    endpoints: Seq<Endpoint>,
    moves: Seq<LifecycleMove>,
) -> bool {
    &&& endpoints.len() == moves.len() + 1
    &&& endpoints[0] == (Endpoint { turn: None, listener: None, started: 0 })
    &&& forall|i: int|
        #![trigger moves[i]]
        0 <= i < moves.len() ==> endpoint_follows(
            platform,
            endpoints[i],
            moves[i],
            endpoints[i + 1],
        )
}

/// Starts and stops never overlap: while one of them has its turn, nothing happens
/// but its own steps and the end of a listener.
pub proof fn starts_and_stops_take_turns(
    platform: Platform,
    endpoints: Seq<Endpoint>,
    moves: Seq<LifecycleMove>,
    at: int,
)
    requires
        is_lifecycle(platform, endpoints, moves),
        0 <= at < moves.len(),
    ensures
        endpoints[at].turn is Some ==> !(moves[at] is BeginStart) && !(moves[at] is BeginStop),
        endpoints[at].turn matches Some(turn) ==> {
            &&& turn is Start ==> !(moves[at] is StopStep)
            &&& turn is Stop ==> !(moves[at] is StartStep)
        },
        endpoints[at].turn is None ==> !(moves[at] is StartStep) && !(moves[at] is StopStep),
{
    let done = moves[at];
}

/// While a stop has its turn, no other listener comes up: what it signals and whose
/// socket it removes is the listener that was there when it took its turn, or
/// nothing, where that one has ended meanwhile.
pub proof fn stop_acts_on_the_listener_it_found(
    platform: Platform,
    endpoints: Seq<Endpoint>,
    moves: Seq<LifecycleMove>,
    at: int,
)
    requires
        is_lifecycle(platform, endpoints, moves),
        0 <= at < endpoints.len(),
    ensures
        endpoints[at].turn matches Some(LifecycleTurn::Stop { present, .. }) ==> (
        endpoints[at].listener is None || endpoints[at].listener == present),
        endpoints[at].listener matches Some(number) ==> number < endpoints[at].started,
        endpoints[at].turn matches Some(LifecycleTurn::Stop { present: Some(number), .. })
            ==> number < endpoints[at].started,
    decreases at,
{
    if at > 0 {
        stop_acts_on_the_listener_it_found(platform, endpoints, moves, at - 1);
        let done = moves[at - 1];
    }
}

/// A socket is never removed under a listener that was started later: a move that
/// takes a listener away is its own end, or the step of a stop that found this very
/// listener when it took its turn.
pub proof fn later_listener_keeps_its_socket(
    platform: Platform,
    endpoints: Seq<Endpoint>,
    moves: Seq<LifecycleMove>,
    at: int,
    number: nat,
)
    requires
        is_lifecycle(platform, endpoints, moves),
        0 <= at < moves.len(),
        endpoints[at].listener == Some(number),
        endpoints[at + 1].listener is None,
    ensures
        moves[at] is ListenerEnds || (moves[at] is StopStep && (endpoints[at].turn matches Some(
            LifecycleTurn::Stop { stopping, present },
        ) && stopping is CleanPath && present == Some(number))),
{
    stop_acts_on_the_listener_it_found(platform, endpoints, moves, at);
    let done = moves[at];
}

/// How the server is set up on a platform.
pub open spec fn is_setup(platform: Platform, test_build: bool, setup: ServerSetup) -> bool {
    &&& setup.write_timeout_ms == IPC_HANDLER_TIMEOUT_MS
    &&& if platform == Platform::Windows {
        setup.access matches ListenerAccess::SecurityDescriptor(descriptor) && descriptor@ == (
        if test_build {
            WINDOWS_TEST_CONTROL_PIPE_SDDL@
        } else {
            WINDOWS_CONTROL_PIPE_SDDL@
        })
    } else {
        setup.access == ListenerAccess::Mode(0o666)
    }
}

/// An answer may take 25 seconds. On Unix whoever can reach the socket may read and write
/// it, also in a test build. On Windows the pipe is the system's and the administrators';
/// authenticated users may read and write it, and a test build lets them do everything.
pub proof fn server_is_open_to_users(platform: Platform, test_build: bool, setup: ServerSetup)
    requires
        is_setup(platform, test_build, setup),
    ensures
        setup.write_timeout_ms == 25000,
        platform != Platform::Windows ==> (setup.access matches ListenerAccess::Mode(mode)
            && mode == 0o400 + 0o200 + 0o040 + 0o020 + 0o004 + 0o002),
        platform == Platform::Windows ==> (setup.access matches ListenerAccess::SecurityDescriptor(
            descriptor,
        ) && descriptor@ == (if test_build {
            "D:P(A;;GA;;;SY)(A;;GA;;;BA)(A;;GA;;;AU)"@
        } else {
            "D:P(A;;GA;;;SY)(A;;GA;;;BA)(A;;0x0012019b;;;AU)"@
        })),
{
}

/// What the directory of the control socket has to be like.
pub open spec fn is_control_directory(dir: ServicePath, secured: SecuredDirectory) -> bool {
    &&& secured.path == dir
    &&& secured.mode == CONTROL_DIRECTORY_MODE
}

/// The directory that is secured for a socket is the very one that the socket lies in;
/// the service may do everything in it, and everyone else may only look into it. There is
/// none for a pipe.
pub proof fn sockets_lie_in_a_secured_directory(
    platform: Platform,
    directory: Seq<PathPartView>,
    name: Seq<char>,
    dir: ServicePath,
    secured: SecuredDirectory,
)
    requires
        is_control_directory(dir, secured),
    ensures
        platform != Platform::Windows ==> endpoint_directory(
            platform,
            directory.push(PathPartView::Normal(name)),
        ) == Some(directory),
        endpoint_directory(Platform::Windows, directory) is None,
        secured.path@ == dir@,
        secured.mode == 0o700 + 0o050 + 0o005,
{
    parents_lose_the_last_component(directory, PathPartView::Normal(name));
}

/// What is done about a socket that may be stale.
pub open spec fn socket_step(platform: Platform, finding: SocketFinding) -> SocketStep {
    if platform == Platform::Windows {
        SocketStep::LeaveInPlace
    } else {
        match finding {
            SocketFinding::Exists(true) => SocketStep::Probe {
                timeout_ms: SOCKET_PROBE_TIMEOUT_MS,
            },
            SocketFinding::Reachable(false) => SocketStep::Remove,
            _ => SocketStep::LeaveInPlace,
        }
    }
}

/// Whether the endpoint has to be removed once the server is closed.
pub open spec fn path_is_removed(platform: Platform, exists: bool) -> bool {
    platform != Platform::Windows && exists
}

/// Only a socket that exists is tried, for half a second, and only one that does not
/// answer is removed: one at which another server listens stays. A closed server's own
/// socket is removed where it is still there. Pipes are left alone.
pub proof fn only_dead_sockets_are_removed(
    platform: Platform,
    finding: SocketFinding,
    exists: bool,
)
    ensures
        socket_step(platform, finding) is Remove <==> platform != Platform::Windows && finding
            == SocketFinding::Reachable(false),
        socket_step(platform, finding) is Probe <==> platform != Platform::Windows && finding
            == SocketFinding::Exists(true),
        socket_step(platform, finding) matches SocketStep::Probe { timeout_ms } ==> timeout_ms
            == 500,
        path_is_removed(Platform::Linux, exists) == exists,
        path_is_removed(Platform::Macos, exists) == exists,
        !path_is_removed(Platform::Windows, exists),
{
}

/// A start of the server that is refused tells why: the failure of the step that failed,
/// as it is, or that there is no server. It is refused only for these, and makes the
/// directory, cleans up the socket and sets up the state in this order before it takes
/// the server.
pub proof fn refused_start_tells_why(
    stages: Seq<ServerStart>,
    events: Seq<ServerStartEvent>,
    error: ServerStartError,
)
    requires
        is_server_start(stages, events),
        stages.last() == (ServerStart::Refused { error }),
    ensures
        0 < events.len() <= 4,
        events.len() > 1 ==> stages[1] is CleanStaleSocket,
        events.len() > 2 ==> stages[2] is InitState,
        events.len() > 3 ==> stages[3] is TakeServer,
        match events.last() {
            ServerStartEvent::Failed(text) => events.len() < 4 && error == ServerStartError::Failed(
                text,
            ),
            ServerStartEvent::Taken(found) => events.len() == 4 && !found && (error matches
                ServerStartError::Configuration(message) && message@
                == "IPC server not initialized"@),
            ServerStartEvent::Done => false,
        },
{
    assert(events.len() > 0);
    let _ = events[0];
    if events.len() > 1 {
        let _ = events[1];
    }
    if events.len() > 2 {
        let _ = events[2];
    }
    if events.len() > 3 {
        let _ = events[3];
    }
    if events.len() > 4 {
        let _ = events[4];
    }
}

/// A stop of the server ends with the first failure, as it is, and succeeds where there
/// is none: the core is stopped, the server is signalled, awaited and shut down, and its
/// endpoint is removed. Windows is then given 70 milliseconds to let go of the pipe.
pub proof fn stop_goes_through_all_steps(
    platform: Platform,
    stages: Seq<ServerStop>,
    outcomes: Seq<Result<(), String>>,
    result: Result<(), String>,
)
    requires
        is_server_stop(platform, stages, outcomes),
        stages.last() == (ServerStop::Finished { result }),
    ensures
        outcomes.len() > 0,
        result is Ok <==> outcomes.last() is Ok,
        result is Err ==> result == outcomes.last(),
        result is Err ==> outcomes.len() == 1 || outcomes.len() == 5,
        result is Ok ==> outcomes.len() == if platform == Platform::Windows {
            6int
        } else {
            5
        },
        outcomes.len() > 1 ==> {
            &&& stages[1] is SignalServer
            &&& stages[2] is AwaitServer
            &&& stages[3] is ShutDownServer
            &&& stages[4] is CleanPath
        },
        outcomes.len() > 5 ==> stages[5] == (ServerStop::Pause { delay_ms: 70 }),
{
    assert(outcomes.len() > 0);
    let _ = outcomes[0];
    if outcomes.len() > 1 {
        let _ = outcomes[1];
    }
    if outcomes.len() > 2 {
        let _ = outcomes[2];
    }
    if outcomes.len() > 3 {
        let _ = outcomes[3];
    }
    if outcomes.len() > 4 {
        let _ = outcomes[4];
    }
    if outcomes.len() > 5 {
        let _ = outcomes[5];
    }
    if outcomes.len() > 6 {
        let _ = outcomes[6];
    }
}

} // verus!
