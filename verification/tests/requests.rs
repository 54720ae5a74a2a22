use clash_service_ipc::error::{ServiceError, ServiceErrorCode};
use clash_service_ipc::paths::ServicePath;
use clash_service_ipc::proxy::ProxyApplyOutcome;
use clash_service_ipc::replies::{
    bad_request, ok_empty, ok_json, service_error, service_unavailable, Reply, ReplyCode, ReplyData,
};
use clash_service_ipc::requests::{
    answer_refused_takeover, begin_request, handle_request, owner_writer_config, Answer, Handling,
    PendingRequest, ProtocolSupport, StageEvent,
};
use clash_service_ipc::routes::{
    barrier_path, barrier_reply, create_ipc_router, stages, BarrierSwitch, HttpMethod, IpcCommand,
    RouteTarget, Stage,
};
use clash_service_ipc::runtime::WriterConfig;
use clash_service_ipc::session::{
    ActiveOwnerState, AuthenticatedOwner, OwnerIdentity, OwnerSessionProof, ProtocolVersion,
};

type Event = StageEvent<&'static str>;

const SUPPORT: ProtocolSupport = ProtocolSupport {
    current: ProtocolVersion {
        epoch: 1,
        revision: 4,
    },
    min_supported_revision: 2,
};

fn version() -> Event {
    StageEvent::Protocol(Some(SUPPORT.current))
}

fn owner() -> AuthenticatedOwner {
    AuthenticatedOwner {
        key: "501".to_string(),
        identity: OwnerIdentity::Unix { uid: 501, gid: 20 },
        app_data_root: ServicePath { parts: Vec::new() },
    }
}

fn record(key: &str) -> Result<Option<ActiveOwnerState>, String> {
    Ok(Some(ActiveOwnerState {
        owner_key: key.to_string(),
        generation: 6,
        session_token_hash: "hash".to_string(),
    }))
}

fn shown() -> Event {
    parsed(Some(current_session()), None)
}

fn current_session() -> OwnerSessionProof {
    OwnerSessionProof {
        generation: 6,
        token: "token".to_string(),
    }
}

fn parsed(
    session: Option<OwnerSessionProof>,
    writer: Option<WriterConfig<&'static str>>,
) -> Event {
    StageEvent::Parsed { session, writer }
}

/// What a client asks the writer to be set to.
fn asked(directory: &str) -> WriterConfig<&'static str> {
    WriterConfig {
        directory: directory.to_string(),
        rest: "at most 5 files",
    }
}

fn session(hash: &str) -> Event {
    StageEvent::Session {
        active: record("501"),
        token_hash: Ok(hash.to_string()),
    }
}

fn failed(text: &str) -> Event {
    StageEvent::Failed(text.to_string())
}

/// Runs a request; the events are those of its stages. Hands back the answer,
/// whether the service is broken, and the stages that were reached.
fn run(
    command: IpcCommand,
    events: Vec<Event>,
) -> (Handling<&'static str>, Vec<Stage>) {
    let list = stages(command, false);
    let mut reached = Vec::new();
    let mut pending: PendingRequest<&'static str> = begin_request(command, false);
    for event in events {
        reached.push(list[pending.position]);
        match handle_request(SUPPORT, pending, event) {
            Handling::Pending(next) => pending = next,
            other => return (other, reached),
        }
    }
    (Handling::Pending(pending), reached)
}

fn reply(handling: Handling<&'static str>) -> (Reply<&'static str>, bool) {
    match handling {
        Handling::Finished {
            answer: Answer::Json(reply),
            fatal,
        } => (reply, fatal),
        _ => panic!("no answer"),
    }
}

fn told(command: IpcCommand, events: Vec<Event>) -> (u16, ReplyCode, String, bool) {
    let (reply, fatal) = reply(run(command, events).0);
    assert!(matches!(reply.data, ReplyData::Nothing));
    (reply.status, reply.code, reply.message, fatal)
}

fn with_owner(rest: Vec<Event>) -> Vec<Event> {
    let mut events = vec![
        version(),
        parsed(None, None),
        StageEvent::Authenticated(owner()),
    ];
    events.extend(rest);
    events
}

fn with_session(rest: Vec<Event>) -> Vec<Event> {
    let mut events = vec![
        version(),
        shown(),
        StageEvent::Authenticated(owner()),
        StageEvent::Done,
        session("hash"),
    ];
    events.extend(rest);
    events
}

#[test]
fn routes_have_their_methods() {
    let routes = create_ipc_router(false);
    assert_eq!(routes.len(), 9);
    let method = |command| {
        routes
            .iter()
            .find(|route| route.target == RouteTarget::Command(command))
            .expect("routed")
            .method
    };
    for command in [
        IpcCommand::Magic,
        IpcCommand::GetVersion,
        IpcCommand::Status,
        IpcCommand::GetClashLogs,
        IpcCommand::GetClashLogSnapshot,
    ] {
        assert_eq!(method(command), HttpMethod::Get);
    }
    assert_eq!(method(IpcCommand::StartClash), HttpMethod::Post);
    assert_eq!(method(IpcCommand::StopClash), HttpMethod::Delete);
    assert_eq!(method(IpcCommand::UpdateWriter), HttpMethod::Put);
    assert_eq!(method(IpcCommand::SetSystemProxy), HttpMethod::Put);
    assert_eq!(create_ipc_router(true).len(), 14);
    assert_eq!(
        create_ipc_router(true)[9].target,
        RouteTarget::Barrier(BarrierSwitch::Arm)
    );
}

#[test]
fn barrier_switches_have_paths_and_answers() {
    assert_eq!(barrier_path(BarrierSwitch::Arm), "/__test/proxy-barrier/arm");
    assert_eq!(
        barrier_path(BarrierSwitch::AwaitProxyEntered),
        "/__test/proxy-barrier/proxy-entered"
    );
    assert_eq!(
        barrier_path(BarrierSwitch::AwaitStartWaiting),
        "/__test/proxy-barrier/start-waiting"
    );
    assert_eq!(
        barrier_path(BarrierSwitch::Release),
        "/__test/proxy-barrier/release"
    );
    assert_eq!(
        barrier_path(BarrierSwitch::Reset),
        "/__test/proxy-barrier/reset"
    );
    let answers: Vec<String> = [
        BarrierSwitch::Arm,
        BarrierSwitch::AwaitProxyEntered,
        BarrierSwitch::AwaitStartWaiting,
        BarrierSwitch::Release,
        BarrierSwitch::Reset,
    ]
    .into_iter()
    .map(|switch| barrier_reply::<()>(switch).message)
    .collect();
    assert_eq!(
        answers,
        [
            "Proxy barrier armed",
            "Proxy operation entered",
            "Start is waiting",
            "Proxy barrier released",
            "Proxy barrier reset"
        ]
    );
}

#[test]
fn test_builds_note_a_waiting_start_before_the_lock() {
    let list = stages(IpcCommand::StartClash, true);
    assert_eq!(list.len(), 11);
    assert_eq!(list[5], Stage::NoteStartWaiting);
    assert_eq!(list[6], Stage::LockLifecycle);
    assert!(!stages(IpcCommand::StartClash, false).contains(&Stage::NoteStartWaiting));
}

#[test]
fn replies_have_status_code_and_message() {
    let done: Reply<()> = ok_empty("done".to_string());
    assert_eq!((done.status, done.code), (200, ReplyCode::Number(0)));
    assert_eq!(done.message, "done");
    let data = ok_json(ReplyData::Other(5));
    assert_eq!((data.status, data.code), (200, ReplyCode::Number(0)));
    assert_eq!(data.message, "Success");
    assert!(matches!(data.data, ReplyData::Other(5)));
    let busy: Reply<()> = service_unavailable("busy".to_string());
    assert_eq!((busy.status, busy.code), (503, ReplyCode::Number(1)));
    let bad: Reply<()> = bad_request("bad".to_string());
    assert_eq!((bad.status, bad.code), (400, ReplyCode::Number(400)));
    for (code, status) in [
        (ServiceErrorCode::UnauthorizedOwner, 401),
        (ServiceErrorCode::NotActive, 409),
        (ServiceErrorCode::ProtocolMismatch, 422),
        (ServiceErrorCode::StaleOwnerSession, 422),
        (ServiceErrorCode::InvalidRuntimeAsset, 422),
        (ServiceErrorCode::InvalidInstallLocation, 422),
        (ServiceErrorCode::InvalidProxyConfig, 422),
        (ServiceErrorCode::ProxyClearFailed, 422),
        (ServiceErrorCode::ProxyApplyFailed, 422),
        (ServiceErrorCode::OwnerSwitchFailed, 422),
    ] {
        let reply: Reply<()> = service_error(ServiceError::new(code, "why".to_string()));
        assert_eq!(reply.status, status);
        assert_eq!(reply.code, ReplyCode::Error(code));
        assert_eq!(reply.message, "why");
    }
}

#[test]
fn open_requests_need_only_a_peer() {
    let (handling, _) = run(IpcCommand::Magic, vec![StageEvent::Done]);
    match handling {
        Handling::Finished {
            answer: Answer::Text(text),
            fatal: false,
        } => assert_eq!(text, "Tunglies!"),
        _ => panic!("no greeting"),
    }
    let (handling, _) = run(
        IpcCommand::GetVersion,
        vec![StageEvent::Done, StageEvent::Collected("protocol")],
    );
    assert!(matches!(
        reply(handling).0.data,
        ReplyData::Other("protocol")
    ));
    let (handling, _) = run(IpcCommand::Magic, vec![failed("no peer")]);
    assert!(matches!(
        handling,
        Handling::Finished { answer: Answer::Failure(text), fatal: false } if text == "no peer"
    ));
}

#[test]
fn requests_are_guarded_one_check_after_the_other() {
    for command in [
        IpcCommand::Status,
        IpcCommand::StartClash,
        IpcCommand::GetClashLogs,
        IpcCommand::GetClashLogSnapshot,
        IpcCommand::StopClash,
        IpcCommand::UpdateWriter,
        IpcCommand::SetSystemProxy,
    ] {
        assert_eq!(
            told(command, vec![StageEvent::Protocol(None)]),
            (
                422,
                ReplyCode::Error(ServiceErrorCode::ProtocolMismatch),
                "Service protocol version is not supported".to_string(),
                false
            )
        );
        assert_eq!(
            told(command, vec![version(), failed("eof")]),
            (
                400,
                ReplyCode::Number(400),
                "Invalid JSON: eof".to_string(),
                false
            )
        );
        let body = match command {
            IpcCommand::UpdateWriter => parsed(Some(current_session()), Some(asked("/etc"))),
            _ if stages(command, false)[4] == Stage::RequireSession => shown(),
            _ => parsed(None, None),
        };
        let refusal = ServiceError::new(
            ServiceErrorCode::UnauthorizedOwner,
            "who are you".to_string(),
        );
        assert_eq!(
            told(command, vec![version(), body, StageEvent::Refused(refusal)]),
            (
                401,
                ReplyCode::Error(ServiceErrorCode::UnauthorizedOwner),
                "who are you".to_string(),
                false
            )
        );
    }
}

#[test]
fn status_is_collected_under_the_lock() {
    let (handling, reached) = run(
        IpcCommand::Status,
        with_owner(vec![StageEvent::Done, StageEvent::Collected("fine")]),
    );
    assert_eq!(
        reached,
        [
            Stage::CheckProtocol,
            Stage::ParseBody,
            Stage::Authenticate,
            Stage::LockLifecycle,
            Stage::CollectStatus
        ]
    );
    let (reply, fatal) = reply(handling);
    assert!(!fatal);
    assert_eq!(reply.message, "Success");
    assert!(matches!(reply.data, ReplyData::Other("fine")));
    assert_eq!(
        told(
            IpcCommand::Status,
            with_owner(vec![StageEvent::Done, failed("poisoned")])
        ),
        (
            503,
            ReplyCode::Number(1),
            "Failed to collect service status: poisoned".to_string(),
            false
        )
    );
}

#[test]
fn core_is_started_and_told_with_its_session() {
    let events = with_owner(vec![
        StageEvent::Done,
        StageEvent::ProxyChecked(None),
        StageEvent::Done,
        StageEvent::Done,
        StageEvent::Done,
        StageEvent::TakenOver {
            started: record("501").expect("record").expect("active"),
            outcome: ProxyApplyOutcome::NotRequested,
        },
        failed("legacy files are busy"),
    ]);
    let (handling, reached) = run(IpcCommand::StartClash, events);
    assert_eq!(reached, stages(IpcCommand::StartClash, false));
    match reply(handling).0.data {
        ReplyData::Started(result) => {
            assert_eq!(result.session.generation, 6);
            assert!(matches!(
                result.proxy_outcome,
                ProxyApplyOutcome::NotRequested
            ));
        }
        _ => panic!("the session must be told"),
    }
}

#[test]
fn refused_starts_are_answered() {
    assert_eq!(
        told(IpcCommand::StartClash, with_owner(vec![failed("short")])),
        (
            400,
            ReplyCode::Number(400),
            "Invalid proposed owner session token".to_string(),
            false
        )
    );
    assert_eq!(
        told(
            IpcCommand::StartClash,
            with_owner(vec![
                StageEvent::Done,
                StageEvent::ProxyChecked(Some(Err("no port".to_string())))
            ])
        ),
        (
            422,
            ReplyCode::Error(ServiceErrorCode::InvalidProxyConfig),
            "no port".to_string(),
            false
        )
    );
    let locked = |rest| {
        let mut events = vec![
            StageEvent::Done,
            StageEvent::ProxyChecked(Some(Ok(()))),
            StageEvent::Done,
        ];
        events.extend(rest);
        with_owner(events)
    };
    assert_eq!(
        told(IpcCommand::StartClash, locked(vec![failed("unreadable")])).2,
        "Failed to load active owner: unreadable"
    );
    let refusal = |code, text: &str| StageEvent::Refused(ServiceError::new(code, text.to_string()));
    assert_eq!(
        told(
            IpcCommand::StartClash,
            locked(vec![
                StageEvent::Done,
                refusal(ServiceErrorCode::InvalidRuntimeAsset, "too large")
            ])
        )
        .1,
        ReplyCode::Error(ServiceErrorCode::InvalidRuntimeAsset)
    );
    let (handling, _) = run(
        IpcCommand::StartClash,
        locked(vec![
            StageEvent::Done,
            StageEvent::Done,
            refusal(ServiceErrorCode::OwnerSwitchFailed, "core hangs"),
        ]),
    );
    let Handling::DiscardUnstarted { error } = handling else {
        panic!("a runtime may be left");
    };
    let reply: Reply<()> = answer_refused_takeover(error, Err("busy".to_string()));
    assert_eq!(reply.status, 422);
    assert_eq!(
        reply.message,
        "core hangs; failed to discard unused runtime generation: busy"
    );
    let plain = ServiceError::new(ServiceErrorCode::OwnerSwitchFailed, "core hangs".to_string());
    assert_eq!(
        answer_refused_takeover::<()>(plain, Ok(())).message,
        "core hangs"
    );
}

#[test]
fn logs_are_read_for_the_active_owner_only() {
    for command in [IpcCommand::GetClashLogs, IpcCommand::GetClashLogSnapshot] {
        for active in [record("777"), Ok(None), Err("unreadable".to_string())] {
            assert_eq!(
                told(
                    command,
                    with_owner(vec![StageEvent::Done, StageEvent::ActiveOwner(active)])
                ),
                (
                    409,
                    ReplyCode::Error(ServiceErrorCode::NotActive),
                    "Owner is not active".to_string(),
                    false
                )
            );
        }
    }
    let (handling, _) = run(
        IpcCommand::GetClashLogs,
        with_owner(vec![
            StageEvent::Done,
            StageEvent::ActiveOwner(record("501")),
            StageEvent::Collected("lines"),
        ]),
    );
    assert!(matches!(reply(handling).0.data, ReplyData::Other("lines")));
    let (handling, _) = run(
        IpcCommand::GetClashLogSnapshot,
        with_owner(vec![
            StageEvent::Done,
            StageEvent::ActiveOwner(record("501")),
            StageEvent::Snapshot("6162".to_string()),
        ]),
    );
    assert!(matches!(reply(handling).0.data, ReplyData::LogSnapshot(text) if text == "6162"));
    assert_eq!(
        told(
            IpcCommand::GetClashLogSnapshot,
            with_owner(vec![
                StageEvent::Done,
                StageEvent::ActiveOwner(record("501")),
                failed("gone")
            ])
        )
        .2,
        "Failed to read core log snapshot: gone"
    );
}

#[test]
fn commands_need_the_current_session() {
    for command in [
        IpcCommand::StopClash,
        IpcCommand::UpdateWriter,
        IpcCommand::SetSystemProxy,
    ] {
        let writer = if command == IpcCommand::UpdateWriter {
            Some(asked("/etc"))
        } else {
            None
        };
        let events = vec![
            version(),
            parsed(Some(current_session()), writer),
            StageEvent::Authenticated(owner()),
            StageEvent::Done,
            session("other hash"),
        ];
        let (handling, reached) = run(command, events);
        assert_eq!(reached.last(), Some(&Stage::RequireSession));
        let (reply, _) = reply(handling);
        assert_eq!(reply.status, 422);
        assert_eq!(
            reply.code,
            ReplyCode::Error(ServiceErrorCode::StaleOwnerSession)
        );
        assert_eq!(reply.message, "Owner session is stale");
    }
}

#[test]
fn core_is_stopped_and_recorded() {
    let all_done = || {
        vec![
            StageEvent::Done,
            StageEvent::Done,
            StageEvent::Done,
            StageEvent::Done,
        ]
    };
    assert_eq!(
        told(IpcCommand::StopClash, with_session(all_done())),
        (
            200,
            ReplyCode::Number(0),
            "Core stopped successfully".to_string(),
            false
        )
    );
    for (at, message, fatal) in [
        (1, "Failed to stop core: x", false),
        (2, "Failed to persist desired state: x", true),
        (3, "Failed to clear active owner: x", true),
    ] {
        let mut events = all_done();
        events[at] = failed("x");
        assert_eq!(
            told(IpcCommand::StopClash, with_session(events)),
            (503, ReplyCode::Number(1), message.to_string(), fatal)
        );
    }
    let uncleared = ServiceError::proxy_clear_failed("stuck".to_string());
    assert_eq!(
        told(
            IpcCommand::StopClash,
            with_session(vec![StageEvent::Refused(uncleared)])
        ),
        (
            422,
            ReplyCode::Error(ServiceErrorCode::ProxyClearFailed),
            "stuck".to_string(),
            false
        )
    );
}

#[test]
fn writer_is_updated_in_the_owners_directory() {
    let update = |directory: &str, rest: Vec<Event>| {
        let mut events = vec![
            version(),
            parsed(Some(current_session()), Some(asked(directory))),
            StageEvent::Authenticated(owner()),
            StageEvent::Done,
            session("hash"),
            StageEvent::Located("/state/logs".to_string()),
        ];
        events.extend(rest);
        events
    };
    assert_eq!(
        told(
            IpcCommand::UpdateWriter,
            update("/etc", vec![StageEvent::Done, StageEvent::Done])
        )
        .2,
        "Update Writer successfully"
    );
    assert_eq!(
        told(IpcCommand::UpdateWriter, update("/etc", vec![failed("x")])).2,
        "Failed to update writer: x"
    );
    assert_eq!(
        told(
            IpcCommand::UpdateWriter,
            update("/etc", vec![StageEvent::Done, failed("x")])
        )
        .2,
        "Failed to persist writer config: x"
    );
    for directory in ["/etc", "", "/state/logs"] {
        for passed in [vec![], vec![StageEvent::Done]] {
            match run(IpcCommand::UpdateWriter, update(directory, passed)).0 {
                Handling::Pending(pending) => {
                    let writer = pending.writer.expect("the request is about the writer");
                    assert_eq!(writer.directory, "/state/logs");
                    assert_eq!(writer.rest, "at most 5 files");
                }
                _ => panic!("the writer is still to be set"),
            }
        }
    }
    let config = owner_writer_config(asked("/etc"), "/state/logs".to_string());
    assert_eq!(config.directory, "/state/logs");
    assert_eq!(config.rest, "at most 5 files");
}

#[test]
fn proxy_is_validated_before_it_is_applied() {
    let (handling, _) = run(
        IpcCommand::SetSystemProxy,
        with_session(vec![
            StageEvent::ProxyChecked(Some(Ok(()))),
            StageEvent::ProxyApplied(ProxyApplyOutcome::Applied),
        ]),
    );
    assert!(matches!(
        reply(handling).0.data,
        ReplyData::ProxyOutcome(ProxyApplyOutcome::Applied)
    ));
    assert_eq!(
        told(
            IpcCommand::SetSystemProxy,
            with_session(vec![StageEvent::ProxyChecked(Some(Err(
                "no port".to_string()
            )))])
        )
        .1,
        ReplyCode::Error(ServiceErrorCode::InvalidProxyConfig)
    );
    assert_eq!(
        told(
            IpcCommand::SetSystemProxy,
            with_session(vec![
                StageEvent::ProxyChecked(Some(Ok(()))),
                failed("refused")
            ])
        ),
        (
            422,
            ReplyCode::Error(ServiceErrorCode::ProxyApplyFailed),
            "refused".to_string(),
            false
        )
    );
}
