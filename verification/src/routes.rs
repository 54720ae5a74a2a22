//! The requests that the service takes: under which method each is found, and
//! which stages it passes through.
use crate::replies::{is_done, ok_empty, Reply};
use vstd::prelude::*;
use vstd::string::*;

verus! {

/// What a client can ask for.
#[derive(Clone, Copy, Debug, PartialEq, Eq, Structural)]
pub enum IpcCommand {
    Magic,
    GetVersion,
    Status,
    StartClash,
    GetClashLogs,
    GetClashLogSnapshot,
    StopClash,
    UpdateWriter,
    SetSystemProxy,
}

/// The HTTP methods that are routed.
#[derive(Clone, Copy, Debug, PartialEq, Eq, Structural)]
pub enum HttpMethod {
    Get,
    Post,
    Put,
    Delete,
}

/// The switches of the barrier that a test build has.
#[derive(Clone, Copy, Debug, PartialEq, Eq, Structural)]
pub enum BarrierSwitch {
    Arm,
    AwaitProxyEntered,
    AwaitStartWaiting,
    Release,
    Reset,
}

/// What a route leads to.
#[derive(Clone, Copy, Debug, PartialEq, Eq, Structural)]
pub enum RouteTarget {
    Command(IpcCommand),
    Barrier(BarrierSwitch),
}

/// A method and what it leads to.
#[derive(Clone, Copy, Debug, PartialEq, Eq, Structural)]
pub struct Route {
    pub method: HttpMethod,
    pub target: RouteTarget,
}

/// The route of a command.
pub open spec fn command_route(method: HttpMethod, command: IpcCommand) -> Route {
    Route { method, target: RouteTarget::Command(command) }
}

/// The routes to the commands.
pub open spec fn command_routes() -> Seq<Route> {
    seq![
        command_route(HttpMethod::Get, IpcCommand::Magic),
        command_route(HttpMethod::Get, IpcCommand::GetVersion),
        command_route(HttpMethod::Get, IpcCommand::Status),
        command_route(HttpMethod::Post, IpcCommand::StartClash),
        command_route(HttpMethod::Get, IpcCommand::GetClashLogs),
        command_route(HttpMethod::Get, IpcCommand::GetClashLogSnapshot),
        command_route(HttpMethod::Delete, IpcCommand::StopClash),
        command_route(HttpMethod::Put, IpcCommand::UpdateWriter),
        command_route(HttpMethod::Put, IpcCommand::SetSystemProxy),
    ]
}

/// The route of a switch of the barrier.
pub open spec fn barrier_route(method: HttpMethod, switch: BarrierSwitch) -> Route {
    Route { method, target: RouteTarget::Barrier(switch) }
}

/// The routes that only a test build has.
pub open spec fn barrier_routes() -> Seq<Route> {
    seq![
        barrier_route(HttpMethod::Post, BarrierSwitch::Arm),
        barrier_route(HttpMethod::Get, BarrierSwitch::AwaitProxyEntered),
        barrier_route(HttpMethod::Get, BarrierSwitch::AwaitStartWaiting),
        barrier_route(HttpMethod::Post, BarrierSwitch::Release),
        barrier_route(HttpMethod::Post, BarrierSwitch::Reset),
    ]
}

fn to_command(method: HttpMethod, command: IpcCommand) -> (route: Route)
    ensures
        route == command_route(method, command),
{
    Route { method, target: RouteTarget::Command(command) }
}

fn to_barrier(method: HttpMethod, switch: BarrierSwitch) -> (route: Route)
    ensures
        route == barrier_route(method, switch),
{
    Route { method, target: RouteTarget::Barrier(switch) }
}

/// All routes, in the order in which they are set up.
pub fn create_ipc_router(test_build: bool) -> (routes: Vec<Route>)
    ensures
        routes@ == (if test_build {
            command_routes() + barrier_routes()
        } else {
            command_routes()
        }),
        routes@ == routes_of(test_build),
{
    let mut routes: Vec<Route> = vec![
        to_command(HttpMethod::Get, IpcCommand::Magic),
        to_command(HttpMethod::Get, IpcCommand::GetVersion),
        to_command(HttpMethod::Get, IpcCommand::Status),
        to_command(HttpMethod::Post, IpcCommand::StartClash),
        to_command(HttpMethod::Get, IpcCommand::GetClashLogs),
        to_command(HttpMethod::Get, IpcCommand::GetClashLogSnapshot),
        to_command(HttpMethod::Delete, IpcCommand::StopClash),
        to_command(HttpMethod::Put, IpcCommand::UpdateWriter),
        to_command(HttpMethod::Put, IpcCommand::SetSystemProxy),
    ];
    assert(routes@ =~= command_routes());
    if test_build {
        routes.push(to_barrier(HttpMethod::Post, BarrierSwitch::Arm));
        routes.push(to_barrier(HttpMethod::Get, BarrierSwitch::AwaitProxyEntered));
        routes.push(to_barrier(HttpMethod::Get, BarrierSwitch::AwaitStartWaiting));
        routes.push(to_barrier(HttpMethod::Post, BarrierSwitch::Release));
        routes.push(to_barrier(HttpMethod::Post, BarrierSwitch::Reset));
        assert(routes@ =~= command_routes() + barrier_routes());
    }
    routes
}

/// Where a switch of the barrier is found, and what it answers.
pub open spec fn barrier_texts(switch: BarrierSwitch) -> (Seq<char>, Seq<char>) {
    match switch {
        BarrierSwitch::Arm => ("/__test/proxy-barrier/arm"@, "Proxy barrier armed"@),
        BarrierSwitch::AwaitProxyEntered => (
            "/__test/proxy-barrier/proxy-entered"@,
            "Proxy operation entered"@,
        ),
        BarrierSwitch::AwaitStartWaiting => (
            "/__test/proxy-barrier/start-waiting"@,
            "Start is waiting"@,
        ),
        BarrierSwitch::Release => ("/__test/proxy-barrier/release"@, "Proxy barrier released"@),
        BarrierSwitch::Reset => ("/__test/proxy-barrier/reset"@, "Proxy barrier reset"@),
    }
}

/// The path of a switch of the barrier.
pub fn barrier_path(switch: BarrierSwitch) -> (path: &'static str)
    ensures
        path@ == barrier_texts(switch).0,
{
    match switch {
        BarrierSwitch::Arm => "/__test/proxy-barrier/arm",
        BarrierSwitch::AwaitProxyEntered => "/__test/proxy-barrier/proxy-entered",
        BarrierSwitch::AwaitStartWaiting => "/__test/proxy-barrier/start-waiting",
        BarrierSwitch::Release => "/__test/proxy-barrier/release",
        BarrierSwitch::Reset => "/__test/proxy-barrier/reset",
    }
}

/// The answer of a switch of the barrier.
pub fn barrier_reply<D>(switch: BarrierSwitch) -> (reply: Reply<D>)
    ensures
        is_done(reply, barrier_texts(switch).1),
{
    ok_empty(
        match switch {
            BarrierSwitch::Arm => "Proxy barrier armed".to_owned(),
            BarrierSwitch::AwaitProxyEntered => "Proxy operation entered".to_owned(),
            BarrierSwitch::AwaitStartWaiting => "Start is waiting".to_owned(),
            BarrierSwitch::Release => "Proxy barrier released".to_owned(),
            BarrierSwitch::Reset => "Proxy barrier reset".to_owned(),
        },
    )
}

/// A stage that a request passes through.
#[derive(Clone, Copy, Debug, PartialEq, Eq, Structural)]
pub enum Stage {
    /// Who is at the other end of the connection is found out.
    IdentifyPeer,
    /// What the service knows of its protocol is put together.
    DescribeProtocol,
    CheckProtocol,
    ParseBody,
    Authenticate,
    HashProposedToken,
    ValidateProxy,
    NoteStartWaiting,
    /// The lock that admits one request at a time to the owner's lifecycle is
    /// taken, and held until the request is answered.
    LockLifecycle,
    LoadActiveOwner,
    RequireOwner,
    RequireSession,
    CollectStatus,
    ReadLogs,
    ReadSnapshot,
    PrepareRuntime,
    TakeOver,
    CleanUpLegacy,
    ClearProxy,
    StopCore,
    PersistStopped,
    ClearActiveOwner,
    /// Where the log of the owner lies is found out.
    LocateLogs,
    UpdateWriter,
    PersistWriter,
    ApplyProxy,
}

/// The stages that begin every request but those that anyone may make.
pub open spec fn guarded() -> Seq<Stage> {
    seq![Stage::CheckProtocol, Stage::ParseBody, Stage::Authenticate]
}

/// The stages of a command, in their order.
pub open spec fn stages_of(command: IpcCommand, test_build: bool) -> Seq<Stage> {
    match command {
        IpcCommand::Magic => seq![Stage::IdentifyPeer],
        IpcCommand::GetVersion => seq![Stage::IdentifyPeer, Stage::DescribeProtocol],
        IpcCommand::Status => guarded() + seq![Stage::LockLifecycle, Stage::CollectStatus],
        IpcCommand::StartClash => guarded() + seq![Stage::HashProposedToken, Stage::ValidateProxy]
            + (if test_build {
            seq![Stage::NoteStartWaiting]
        } else {
            seq![]
        }) + seq![
            Stage::LockLifecycle,
            Stage::LoadActiveOwner,
            Stage::PrepareRuntime,
            Stage::TakeOver,
            Stage::CleanUpLegacy,
        ],
        IpcCommand::GetClashLogs => guarded() + seq![
            Stage::LockLifecycle,
            Stage::RequireOwner,
            Stage::ReadLogs,
        ],
        IpcCommand::GetClashLogSnapshot => guarded() + seq![
            Stage::LockLifecycle,
            Stage::RequireOwner,
            Stage::ReadSnapshot,
        ],
        IpcCommand::StopClash => guarded() + seq![
            Stage::LockLifecycle,
            Stage::RequireSession,
            Stage::ClearProxy,
            Stage::StopCore,
            Stage::PersistStopped,
            Stage::ClearActiveOwner,
        ],
        IpcCommand::UpdateWriter => guarded() + seq![
            Stage::LockLifecycle,
            Stage::RequireSession,
            Stage::LocateLogs,
            Stage::UpdateWriter,
            Stage::PersistWriter,
        ],
        IpcCommand::SetSystemProxy => guarded() + seq![
            Stage::LockLifecycle,
            Stage::RequireSession,
            Stage::ValidateProxy,
            Stage::ApplyProxy,
        ],
    }
}

/// The stages of a command, in their order.
pub fn stages(command: IpcCommand, test_build: bool) -> (list: Vec<Stage>)
    ensures
        list@ == stages_of(command, test_build),
{
    let mut list: Vec<Stage> = Vec::new();
    if command == IpcCommand::Magic {
        list.push(Stage::IdentifyPeer);
        assert(list@ =~= stages_of(command, test_build));
        return list;
    }
    if command == IpcCommand::GetVersion {
        list.push(Stage::IdentifyPeer);
        list.push(Stage::DescribeProtocol);
        assert(list@ =~= stages_of(command, test_build));
        return list;
    }
    list.push(Stage::CheckProtocol);
    list.push(Stage::ParseBody);
    list.push(Stage::Authenticate);
    match command {
        IpcCommand::StartClash => {
            list.push(Stage::HashProposedToken);
            list.push(Stage::ValidateProxy);
            if test_build {
                list.push(Stage::NoteStartWaiting);
            }
            list.push(Stage::LockLifecycle);
            list.push(Stage::LoadActiveOwner);
            list.push(Stage::PrepareRuntime);
            list.push(Stage::TakeOver);
            list.push(Stage::CleanUpLegacy);
        },
        _ => {
            list.push(Stage::LockLifecycle);
            match command {
                IpcCommand::GetClashLogs => {
                    list.push(Stage::RequireOwner);
                    list.push(Stage::ReadLogs);
                },
                IpcCommand::GetClashLogSnapshot => {
                    list.push(Stage::RequireOwner);
                    list.push(Stage::ReadSnapshot);
                },
                IpcCommand::StopClash => {
                    list.push(Stage::RequireSession);
                    list.push(Stage::ClearProxy);
                    list.push(Stage::StopCore);
                    list.push(Stage::PersistStopped);
                    list.push(Stage::ClearActiveOwner);
                },
                IpcCommand::UpdateWriter => {
                    list.push(Stage::RequireSession);
                    list.push(Stage::LocateLogs);
                    list.push(Stage::UpdateWriter);
                    list.push(Stage::PersistWriter);
                },
                IpcCommand::SetSystemProxy => {
                    list.push(Stage::RequireSession);
                    list.push(Stage::ValidateProxy);
                    list.push(Stage::ApplyProxy);
                },
                _ => {
                    list.push(Stage::CollectStatus);
                },
            }
        },
    }
    assert(list@ =~= stages_of(command, test_build));
    list
}

/// Whether anyone may make a request, whoever owns the service.
pub open spec fn is_open(command: IpcCommand) -> bool {
    command == IpcCommand::Magic || command == IpcCommand::GetVersion
}

/// Whether a request has to prove the current session.
pub open spec fn takes_session(command: IpcCommand) -> bool {
    ||| command == IpcCommand::StopClash
    ||| command == IpcCommand::UpdateWriter
    ||| command == IpcCommand::SetSystemProxy
}

/// Whether a stage changes the core, the proxy or what is recorded of an owner.
pub open spec fn changes_service(stage: Stage) -> bool {
    match stage {
        Stage::PrepareRuntime => true,
        Stage::TakeOver => true,
        Stage::CleanUpLegacy => true,
        Stage::ClearProxy => true,
        Stage::StopCore => true,
        Stage::PersistStopped => true,
        Stage::ClearActiveOwner => true,
        Stage::UpdateWriter => true,
        Stage::PersistWriter => true,
        Stage::ApplyProxy => true,
        _ => false,
    }
}

/// Nothing is changed before the request is guarded: a stage that changes the
/// service comes behind the checks on the protocol and the owner and behind the
/// lock, and behind the check on the session where the command asks for one. A
/// command that starts a core has its token and its proxy checked instead.
pub proof fn changes_come_behind_guards(command: IpcCommand, test_build: bool, position: int)
    requires
        0 <= position < stages_of(command, test_build).len(),
        changes_service(stages_of(command, test_build)[position]),
    ensures
        guarded().is_prefix_of(stages_of(command, test_build)),
        position > 3,
        stages_of(command, test_build).take(position).contains(Stage::LockLifecycle),
        takes_session(command) ==> position > 4 && stages_of(command, test_build)[4]
            == Stage::RequireSession,
        !takes_session(command) ==> {
            &&& command == IpcCommand::StartClash
            &&& position > 4
            &&& stages_of(command, test_build)[3] == Stage::HashProposedToken
            &&& stages_of(command, test_build)[4] == Stage::ValidateProxy
        },
{
    let list = stages_of(command, test_build);
    assert(!is_open(command));
    assert(list.subrange(0, 3) =~= guarded());
    let lock: int = if command == IpcCommand::StartClash {
        if test_build {
            6
        } else {
            5
        }
    } else {
        3
    };
    assert(list[lock] == Stage::LockLifecycle);
    assert(lock < position);
    assert(list.take(position)[lock] == Stage::LockLifecycle);
}

/// Every command has a route, no two routes are the same, and a test build only
/// adds to the routes.
pub proof fn every_command_has_a_route(command: IpcCommand)
    ensures
        (command_routes() + barrier_routes()).no_duplicates(),
        exists|i: int|
            0 <= i < command_routes().len() && (#[trigger] command_routes()[i]).target
                == RouteTarget::Command(command),
{
    let i: int = match command {
        IpcCommand::Magic => 0,
        IpcCommand::GetVersion => 1,
        IpcCommand::Status => 2,
        IpcCommand::StartClash => 3,
        IpcCommand::GetClashLogs => 4,
        IpcCommand::GetClashLogSnapshot => 5,
        IpcCommand::StopClash => 6,
        IpcCommand::UpdateWriter => 7,
        IpcCommand::SetSystemProxy => 8,
    };
    assert(command_routes()[i].target == RouteTarget::Command(command));
}

/// The method under which each command is found, and no other: questions are got, a core
/// is started by a post and stopped by a delete, and settings are put.
pub proof fn commands_are_found_under_their_methods(method: HttpMethod, command: IpcCommand)
    ensures
        command_routes().contains(command_route(method, command)) <==> method == (match command {
            IpcCommand::StartClash => HttpMethod::Post,
            IpcCommand::StopClash => HttpMethod::Delete,
            IpcCommand::UpdateWriter => HttpMethod::Put,
            IpcCommand::SetSystemProxy => HttpMethod::Put,
            _ => HttpMethod::Get,
        }),
{
    let routes = command_routes();
    let i: int = match command {
        IpcCommand::Magic => 0,
        IpcCommand::GetVersion => 1,
        IpcCommand::Status => 2,
        IpcCommand::StartClash => 3,
        IpcCommand::GetClashLogs => 4,
        IpcCommand::GetClashLogSnapshot => 5,
        IpcCommand::StopClash => 6,
        IpcCommand::UpdateWriter => 7,
        IpcCommand::SetSystemProxy => 8,
    };
    assert(routes[i].target == RouteTarget::Command(command));
    if routes.contains(command_route(method, command)) {
        let k = choose|k: int|
            0 <= k < routes.len() && routes[k] == command_route(method, command);
        assert(routes[k].target == RouteTarget::Command(command));
        assert(k == i);
    } else if routes[i].method == method {
        assert(routes[i] == command_route(method, command));
    }
}

/// What each command does once it is guarded, and in which order. A core is started only
/// behind a token and a proxy that make sense, and under the lock; the proxy goes before
/// the core, the core before what is recorded of it.
pub proof fn commands_work_in_order(test_build: bool)
    ensures
        stages_of(IpcCommand::Magic, test_build) == seq![Stage::IdentifyPeer],
        stages_of(IpcCommand::GetVersion, test_build) == seq![
            Stage::IdentifyPeer,
            Stage::DescribeProtocol,
        ],
        stages_of(IpcCommand::Status, test_build).skip(3) == seq![
            Stage::LockLifecycle,
            Stage::CollectStatus,
        ],
        stages_of(IpcCommand::GetClashLogs, test_build).skip(3) == seq![
            Stage::LockLifecycle,
            Stage::RequireOwner,
            Stage::ReadLogs,
        ],
        stages_of(IpcCommand::GetClashLogSnapshot, test_build).skip(3) == seq![
            Stage::LockLifecycle,
            Stage::RequireOwner,
            Stage::ReadSnapshot,
        ],
        stages_of(IpcCommand::StopClash, test_build).skip(3) == seq![
            Stage::LockLifecycle,
            Stage::RequireSession,
            Stage::ClearProxy,
            Stage::StopCore,
            Stage::PersistStopped,
            Stage::ClearActiveOwner,
        ],
        stages_of(IpcCommand::UpdateWriter, test_build).skip(3) == seq![
            Stage::LockLifecycle,
            Stage::RequireSession,
            Stage::LocateLogs,
            Stage::UpdateWriter,
            Stage::PersistWriter,
        ],
        stages_of(IpcCommand::SetSystemProxy, test_build).skip(3) == seq![
            Stage::LockLifecycle,
            Stage::RequireSession,
            Stage::ValidateProxy,
            Stage::ApplyProxy,
        ],
        stages_of(IpcCommand::StartClash, test_build).subrange(3, 5) == seq![
            Stage::HashProposedToken,
            Stage::ValidateProxy,
        ],
        stages_of(IpcCommand::StartClash, true)[5] == Stage::NoteStartWaiting,
        stages_of(IpcCommand::StartClash, test_build).skip(
            if test_build {
                6
            } else {
                5
            },
        ) == seq![
            Stage::LockLifecycle,
            Stage::LoadActiveOwner,
            Stage::PrepareRuntime,
            Stage::TakeOver,
            Stage::CleanUpLegacy,
        ],
{
    assert(stages_of(IpcCommand::StartClash, test_build).skip(
        if test_build {
            6
        } else {
            5
        },
    ) =~= seq![
        Stage::LockLifecycle,
        Stage::LoadActiveOwner,
        Stage::PrepareRuntime,
        Stage::TakeOver,
        Stage::CleanUpLegacy,
    ]);
    assert(stages_of(IpcCommand::StartClash, test_build).subrange(3, 5) =~= seq![
        Stage::HashProposedToken,
        Stage::ValidateProxy,
    ]);
}

/// The routes of a build.
pub open spec fn routes_of(test_build: bool) -> Seq<Route> {
    if test_build {
        command_routes() + barrier_routes()
    } else {
        command_routes()
    }
}

/// The routes to the commands are the same in all builds, and one for each of the nine.
/// Only a test build has routes to the barrier, one for each of its five switches: what
/// changes it is posted, and what waits for it is got.
pub proof fn only_test_builds_route_the_barrier(method: HttpMethod, switch: BarrierSwitch)
    ensures
        routes_of(false).len() == 9,
        routes_of(true).len() == 14,
        routes_of(true).take(9) == routes_of(false),
        !routes_of(false).contains(barrier_route(method, switch)),
        routes_of(true).contains(barrier_route(method, switch)) <==> method == (match switch {
            BarrierSwitch::AwaitProxyEntered => HttpMethod::Get,
            BarrierSwitch::AwaitStartWaiting => HttpMethod::Get,
            _ => HttpMethod::Post,
        }),
{
    let plain = routes_of(false);
    let all = routes_of(true);
    assert(all.take(9) =~= plain);
    let i: int = match switch {
        BarrierSwitch::Arm => 9,
        BarrierSwitch::AwaitProxyEntered => 10,
        BarrierSwitch::AwaitStartWaiting => 11,
        BarrierSwitch::Release => 12,
        BarrierSwitch::Reset => 13,
    };
    assert(all[i] == barrier_routes()[i - 9]);
    assert(all[i].target == RouteTarget::Barrier(switch));
    let wanted = barrier_route(method, switch);
    if all.contains(wanted) {
        let k = choose|k: int| 0 <= k < all.len() && all[k] == wanted;
        assert(k >= 9) by {
            if k < 9 {
                assert(all[k] == plain[k]);
            }
        }
        assert(all[k] == barrier_routes()[k - 9]);
        assert(k == i);
    } else if all[i].method == method {
        assert(all[i] == wanted);
    }
}

/// Where the switches of the barrier are found, and what they answer.
pub proof fn switches_are_found_below_one_path(switch: BarrierSwitch)
    ensures
        barrier_texts(switch).0 == "/__test/proxy-barrier/"@ + (match switch {
            BarrierSwitch::Arm => "arm"@,
            BarrierSwitch::AwaitProxyEntered => "proxy-entered"@,
            BarrierSwitch::AwaitStartWaiting => "start-waiting"@,
            BarrierSwitch::Release => "release"@,
            BarrierSwitch::Reset => "reset"@,
        }),
        barrier_texts(switch).1 == (match switch {
            BarrierSwitch::Arm => "Proxy barrier armed"@,
            BarrierSwitch::AwaitProxyEntered => "Proxy operation entered"@,
            BarrierSwitch::AwaitStartWaiting => "Start is waiting"@,
            BarrierSwitch::Release => "Proxy barrier released"@,
            BarrierSwitch::Reset => "Proxy barrier reset"@,
        }),
{
    reveal_strlit("/__test/proxy-barrier/");
    reveal_strlit("arm");
    reveal_strlit("proxy-entered");
    reveal_strlit("start-waiting");
    reveal_strlit("release");
    reveal_strlit("reset");
    reveal_strlit("/__test/proxy-barrier/arm");
    reveal_strlit("/__test/proxy-barrier/proxy-entered");
    reveal_strlit("/__test/proxy-barrier/start-waiting");
    reveal_strlit("/__test/proxy-barrier/release");
    reveal_strlit("/__test/proxy-barrier/reset");
    let prefix = "/__test/proxy-barrier/"@;
    assert(prefix + "arm"@ =~= "/__test/proxy-barrier/arm"@);
    assert(prefix + "proxy-entered"@ =~= "/__test/proxy-barrier/proxy-entered"@);
    assert(prefix + "start-waiting"@ =~= "/__test/proxy-barrier/start-waiting"@);
    assert(prefix + "release"@ =~= "/__test/proxy-barrier/release"@);
    assert(prefix + "reset"@ =~= "/__test/proxy-barrier/reset"@);
}

} // verus!
