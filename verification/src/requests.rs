//! What a request is answered: the stages of a request end one after the other,
//! and each may refuse it.
//!
//! What a stage does happens outside. The checks on the protocol, on the active
//! owner and on the session are made here, on what was found outside.
use crate::error::{ServiceError, ServiceErrorCode};
use crate::proxy::{append_failure, with_failure, ProxyApplyOutcome};
use crate::replies::{
    bad_request, is_bad_request, is_done, is_error, is_success, is_unavailable, ok_empty, ok_json,
    service_error, service_unavailable, OwnerSessionHandle, Reply, ReplyCode, ReplyData,
    StartClashResult,
};
use crate::routes::{is_open, stages, stages_of, takes_session, IpcCommand, Stage};
use crate::runtime::WriterConfig;
use crate::session::{
    owner_is_active, protocol_accepted, require_active_owner, require_active_session,
    require_protocol_version, session_proved, ActiveOwnerState, AuthenticatedOwner,
    OwnerSessionProof, ProtocolVersion,
};
use crate::text::joined;
use vstd::prelude::*;
use vstd::string::*;

verus! {

/// The protocol that the service speaks, and the oldest revision of a client
/// that it serves.
#[derive(Clone, Copy, Debug, PartialEq, Eq, Structural)]
pub struct ProtocolSupport {
    pub current: ProtocolVersion,
    pub min_supported_revision: u32,
}

/// A request under way: the stages before `position` have passed. `writer` is what
/// the writer is to be set to, where the request is about that. `D` is what is
/// passed through without being looked into.
#[derive(Debug)]
pub struct PendingRequest<D> {
    pub command: IpcCommand,
    pub test_build: bool,
    pub position: usize,
    pub owner: Option<AuthenticatedOwner>,
    pub session_shown: Option<OwnerSessionProof>,
    pub writer: Option<WriterConfig<D>>,
    pub data: ReplyData<D>,
}

/// What a client gets.
#[derive(Debug)]
pub enum Answer<D> {
    /// A plain text.
    Text(String),
    Json(Reply<D>),
    /// The connection fails with this error.
    Failure(String),
}

/// What the handling of a request has come to. `fatal` tells that the service is
/// broken from here on.
#[derive(Debug)]
pub enum Handling<D> {
    Pending(PendingRequest<D>),
    DiscardUnstarted { error: ServiceError },
    Finished { answer: Answer<D>, fatal: bool },
}

/// How a stage ended. A failure carries the text of its error, a refusal the
/// error itself.
#[derive(Debug)]
pub enum StageEvent<D> {
    Done,
    Protocol(Option<ProtocolVersion>),
    /// The body was read: the session that it shows, and the writer that it asks
    /// for.
    Parsed { session: Option<OwnerSessionProof>, writer: Option<WriterConfig<D>> },
    Authenticated(AuthenticatedOwner),
    ProxyChecked(Option<Result<(), String>>),
    ActiveOwner(Result<Option<ActiveOwnerState>, String>),
    Session {
        active: Result<Option<ActiveOwnerState>, String>,
        token_hash: Result<String, String>,
    },
    TakenOver { started: ActiveOwnerState, outcome: ProxyApplyOutcome },
    ProxyApplied(ProxyApplyOutcome),
    /// The directory that the service keeps for the owner's log.
    Located(String),
    Snapshot(String),
    Collected(D),
    Failed(String),
    Refused(ServiceError),
}

impl<D> PendingRequest<D> {
    /// The stage that is to be performed.
    pub open spec fn stage(&self) -> Stage {
        stages_of(self.command, self.test_build)[self.position as int]
    }

    /// What holds of a request under way: a parsed body has brought the session
    /// and the writer that the command asks for, and behind authentication the
    /// owner is known.
    pub open spec fn well_formed(&self) -> bool {
        &&& self.position < stages_of(self.command, self.test_build).len()
        &&& !is_open(self.command) && self.position > 1 ==> self.session_shown is Some
            == takes_session(self.command)
        &&& !is_open(self.command) && self.position > 1 ==> self.writer is Some == (self.command
            == IpcCommand::UpdateWriter)
        &&& !is_open(self.command) && self.position > 2 ==> self.owner is Some
    }
}

/// Whether an event can end the stage that is pending.
pub open spec fn stage_event_fits<D>(pending: PendingRequest<D>, event: StageEvent<D>) -> bool {
    match pending.stage() {
        Stage::DescribeProtocol => event is Collected,
        Stage::CheckProtocol => event is Protocol,
        Stage::ParseBody => event is Failed || (event matches StageEvent::Parsed { session, writer }
            && session is Some == takes_session(pending.command) && writer is Some == (
        pending.command == IpcCommand::UpdateWriter)),
        Stage::Authenticate => event is Authenticated || event is Refused,
        Stage::ValidateProxy => event matches StageEvent::ProxyChecked(checked)
            && (pending.command == IpcCommand::SetSystemProxy ==> checked is Some),
        Stage::NoteStartWaiting => event is Done,
        Stage::LockLifecycle => event is Done,
        Stage::RequireOwner => event is ActiveOwner,
        Stage::RequireSession => event is Session,
        Stage::CollectStatus => event is Collected || event is Failed,
        Stage::ReadLogs => event is Collected,
        Stage::ReadSnapshot => event is Snapshot || event is Failed,
        Stage::LocateLogs => event is Located,
        Stage::PrepareRuntime => event is Done || event is Refused,
        Stage::TakeOver => event is TakenOver || event is Refused,
        Stage::ClearProxy => event is Done || event is Refused,
        Stage::ApplyProxy => event is ProxyApplied || event is Failed,
        _ => event is Done || event is Failed,
    }
}

/// Whether what was found proves the session that a request has shown.
pub open spec fn session_holds(
    active: Result<Option<ActiveOwnerState>, String>,
    token_hash: Result<String, String>,
    owner: AuthenticatedOwner,
    shown: OwnerSessionProof,
) -> bool {
    active matches Ok(Some(state)) && token_hash matches Ok(hash) && session_proved(
        state,
        owner.key@,
        shown.generation,
        hash@,
    )
}

/// Whether a request passes the stage that is pending. Of what a stage can end
/// in, only the failure to clean up after an older service passes.
pub open spec fn stage_passes<D>(
    support: ProtocolSupport,
    pending: PendingRequest<D>,
    event: StageEvent<D>,
) -> bool {
    match event {
        StageEvent::Protocol(supplied) => protocol_accepted(
            supplied,
            support.current,
            support.min_supported_revision,
        ),
        StageEvent::ProxyChecked(checked) => !(checked matches Some(Err(_))),
        StageEvent::ActiveOwner(active) => owner_is_active(active, pending.owner->Some_0.key@),
        StageEvent::Session { active, token_hash } => session_holds(
            active,
            token_hash,
            pending.owner->Some_0,
            pending.session_shown->Some_0,
        ),
        StageEvent::Failed(_) => pending.stage() == Stage::CleanUpLegacy,
        StageEvent::Refused(_) => false,
        _ => true,
    }
}

/// What an answer will carry after an event.
pub open spec fn data_after<D>(data: ReplyData<D>, event: StageEvent<D>) -> ReplyData<D> {
    match event {
        StageEvent::TakenOver { started, outcome } => ReplyData::Started(
            StartClashResult {
                session: OwnerSessionHandle { generation: started.generation },
                proxy_outcome: outcome,
            },
        ),
        StageEvent::ProxyApplied(outcome) => ReplyData::ProxyOutcome(outcome),
        StageEvent::Snapshot(text) => ReplyData::LogSnapshot(text),
        StageEvent::Collected(other) => ReplyData::Other(other),
        _ => data,
    }
}

/// A request that has passed the stage that was pending.
pub open spec fn moved_on<D>(pending: PendingRequest<D>, event: StageEvent<D>) -> PendingRequest<
    D,
> {
    PendingRequest {
        position: (pending.position + 1) as usize,
        owner: match event {
            StageEvent::Authenticated(owner) => Some(owner),
            _ => pending.owner,
        },
        session_shown: match event {
            StageEvent::Parsed { session, .. } => session,
            _ => pending.session_shown,
        },
        writer: match event {
            StageEvent::Parsed { writer, .. } => writer,
            StageEvent::Located(logs_dir) => match pending.writer {
                Some(requested) => Some(WriterConfig { directory: logs_dir, ..requested }),
                None => None,
            },
            _ => pending.writer,
        },
        data: data_after(pending.data, event),
        ..pending
    }
}

/// Whether this answers a command whose last stage has passed.
pub open spec fn answers_success<D>(
    command: IpcCommand,
    data: ReplyData<D>,
    answer: Answer<D>,
) -> bool {
    match command {
        IpcCommand::Magic => answer matches Answer::Text(text) && text@ == "Tunglies!"@,
        IpcCommand::StopClash => answer matches Answer::Json(reply) && is_done(
            reply,
            "Core stopped successfully"@,
        ),
        IpcCommand::UpdateWriter => answer matches Answer::Json(reply) && is_done(
            reply,
            "Update Writer successfully"@,
        ),
        _ => answer matches Answer::Json(reply) && is_success(reply, data),
    }
}

/// What failed at a stage, as its answer begins.
pub open spec fn failure_lead(stage: Stage) -> Seq<char> {
    match stage {
        Stage::ParseBody => "Invalid JSON: "@,
        Stage::LoadActiveOwner => "Failed to load active owner: "@,
        Stage::CollectStatus => "Failed to collect service status: "@,
        Stage::ReadSnapshot => "Failed to read core log snapshot: "@,
        Stage::StopCore => "Failed to stop core: "@,
        Stage::PersistStopped => "Failed to persist desired state: "@,
        Stage::ClearActiveOwner => "Failed to clear active owner: "@,
        Stage::UpdateWriter => "Failed to update writer: "@,
        Stage::PersistWriter => "Failed to persist writer config: "@,
        _ => ""@,
    }
}

/// Whether this answers a request that did not pass the stage that was pending.
pub open spec fn answers_failure<D>(stage: Stage, event: StageEvent<D>, answer: Answer<D>) -> bool {
    match event {
        StageEvent::Protocol(_) => answer matches Answer::Json(reply) && is_error(
            reply,
            ServiceErrorCode::ProtocolMismatch,
            "Service protocol version is not supported"@,
        ),
        StageEvent::ProxyChecked(checked) => answer matches Answer::Json(reply) && is_error(
            reply,
            ServiceErrorCode::InvalidProxyConfig,
            checked->Some_0->Err_0@,
        ),
        StageEvent::ActiveOwner(_) => answer matches Answer::Json(reply) && is_error(
            reply,
            ServiceErrorCode::NotActive,
            "Owner is not active"@,
        ),
        StageEvent::Session { .. } => answer matches Answer::Json(reply) && is_error(
            reply,
            ServiceErrorCode::StaleOwnerSession,
            "Owner session is stale"@,
        ),
        StageEvent::Refused(error) => answer matches Answer::Json(reply) && is_error(
            reply,
            error.code,
            error.message@,
        ),
        StageEvent::Failed(error) => match stage {
            Stage::IdentifyPeer => answer == Answer::<D>::Failure(error),
            Stage::ParseBody => answer matches Answer::Json(reply) && is_bad_request(
                reply,
                failure_lead(stage) + error@,
            ),
            Stage::HashProposedToken => answer matches Answer::Json(reply) && is_bad_request(
                reply,
                "Invalid proposed owner session token"@,
            ),
            Stage::ApplyProxy => answer matches Answer::Json(reply) && is_error(
                reply,
                ServiceErrorCode::ProxyApplyFailed,
                error@,
            ),
            _ => answer matches Answer::Json(reply) && is_unavailable(
                reply,
                failure_lead(stage) + error@,
            ),
        },
        _ => false,
    }
}

/// What the handling of a request becomes when its pending stage ends. A
/// takeover that is refused leaves a runtime to discard before the answer. A
/// core that was stopped but could not be recorded as stopped breaks the
/// service.
pub open spec fn handling_follows<D>(
    support: ProtocolSupport,
    pending: PendingRequest<D>,
    event: StageEvent<D>,
    next: Handling<D>,
) -> bool {
    if !stage_passes(support, pending, event) {
        match (pending.stage(), event) {
            (Stage::TakeOver, StageEvent::Refused(error)) => next
                == Handling::<D>::DiscardUnstarted { error },
            _ => next matches Handling::Finished { answer, fatal } && answers_failure(
                pending.stage(),
                event,
                answer,
            ) && fatal == (pending.stage() == Stage::PersistStopped || pending.stage()
                == Stage::ClearActiveOwner),
        }
    } else if pending.position + 1 < stages_of(pending.command, pending.test_build).len() {
        next == Handling::Pending(moved_on(pending, event))
    } else {
        next matches Handling::Finished { answer, fatal } && !fatal && answers_success(
            pending.command,
            data_after(pending.data, event),
            answer,
        )
    }
}

/// Begins to handle a request.
pub fn begin_request<D>(command: IpcCommand, test_build: bool) -> (pending: PendingRequest<D>)
    ensures
        pending == (PendingRequest {
            command,
            test_build,
            position: 0,
            owner: None,
            session_shown: None,
            writer: None::<WriterConfig<D>>,
            data: ReplyData::<D>::Nothing,
        }),
        pending.well_formed(),
        request_begins(command, test_build, pending),
{
    PendingRequest {
        command,
        test_build,
        position: 0,
        owner: None,
        session_shown: None,
        writer: None,
        data: ReplyData::Nothing,
    }
}

fn refuse<D>(error: ServiceError) -> (handling: Handling<D>)
    ensures
        handling matches Handling::Finished { answer: Answer::Json(reply), fatal } && !fatal
            && is_error(reply, error.code, error.message@),
{
    Handling::Finished { answer: Answer::Json(service_error(error)), fatal: false }
}

fn unavailable<D>(lead: &str, error: &str, fatal: bool) -> (handling: Handling<D>)
    ensures
        handling matches Handling::Finished { answer: Answer::Json(reply), fatal: broken } && broken
            == fatal && is_unavailable(reply, lead@ + error@),
{
    Handling::Finished { answer: Answer::Json(service_unavailable(joined(lead, error))), fatal }
}

fn fail<D>(stage: Stage, error: String) -> (handling: Handling<D>)
    requires
        stage != Stage::CleanUpLegacy,
    ensures
        handling matches Handling::Finished { answer, fatal } && answers_failure(
            stage,
            StageEvent::<D>::Failed(error),
            answer,
        ) && fatal == (stage == Stage::PersistStopped || stage == Stage::ClearActiveOwner),
{
    match stage {
        Stage::IdentifyPeer => Handling::Finished { answer: Answer::Failure(error), fatal: false },
        Stage::ParseBody => Handling::Finished {
            answer: Answer::Json(bad_request(joined("Invalid JSON: ", error.as_str()))),
            fatal: false,
        },
        Stage::HashProposedToken => Handling::Finished {
            answer: Answer::Json(bad_request("Invalid proposed owner session token".to_owned())),
            fatal: false,
        },
        Stage::ApplyProxy => refuse(ServiceError::proxy_apply_failed(error)),
        Stage::LoadActiveOwner => unavailable(
            "Failed to load active owner: ",
            error.as_str(),
            false,
        ),
        Stage::CollectStatus => unavailable(
            "Failed to collect service status: ",
            error.as_str(),
            false,
        ),
        Stage::ReadSnapshot => unavailable(
            "Failed to read core log snapshot: ",
            error.as_str(),
            false,
        ),
        Stage::StopCore => unavailable("Failed to stop core: ", error.as_str(), false),
        Stage::PersistStopped => unavailable(
            "Failed to persist desired state: ",
            error.as_str(),
            true,
        ),
        Stage::ClearActiveOwner => unavailable(
            "Failed to clear active owner: ",
            error.as_str(),
            true,
        ),
        Stage::UpdateWriter => unavailable("Failed to update writer: ", error.as_str(), false),
        Stage::PersistWriter => unavailable(
            "Failed to persist writer config: ",
            error.as_str(),
            false,
        ),
        _ => unavailable("", error.as_str(), false),
    }
}

fn pass<D>(pending: PendingRequest<D>, event: StageEvent<D>) -> (next: Handling<D>)
    requires
        pending.well_formed(),
        stage_event_fits(pending, event),
        event is Failed ==> pending.stage() == Stage::CleanUpLegacy,
        !(event is Refused),
    ensures
        if pending.position + 1 < stages_of(pending.command, pending.test_build).len() {
            next == Handling::Pending(moved_on(pending, event))
        } else {
            next matches Handling::Finished { answer, fatal } && !fatal && answers_success(
                pending.command,
                data_after(pending.data, event),
                answer,
            )
        },
        next matches Handling::Pending(later) ==> later.well_formed(),
{
    let count: usize = stages(pending.command, pending.test_build).len();
    let mut later: PendingRequest<D> = pending;
    match event {
        StageEvent::Parsed { session, writer } => {
            later.session_shown = session;
            later.writer = writer;
        },
        StageEvent::Located(logs_dir) => {
            later.writer = match later.writer {
                Some(requested) => Some(owner_writer_config(requested, logs_dir)),
                None => None,
            };
        },
        StageEvent::Authenticated(owner) => {
            later.owner = Some(owner);
        },
        StageEvent::TakenOver { started, outcome } => {
            later.data = ReplyData::Started(
                StartClashResult {
                    session: OwnerSessionHandle { generation: started.generation },
                    proxy_outcome: outcome,
                },
            );
        },
        StageEvent::ProxyApplied(outcome) => {
            later.data = ReplyData::ProxyOutcome(outcome);
        },
        StageEvent::Snapshot(text) => {
            later.data = ReplyData::LogSnapshot(text);
        },
        StageEvent::Collected(other) => {
            later.data = ReplyData::Other(other);
        },
        _ => {},
    }
    proof {
        let list = stages_of(pending.command, pending.test_build);
        if !is_open(pending.command) {
            assert(list[1] == Stage::ParseBody);
            assert(list[2] == Stage::Authenticate);
            assert forall|i: int| 3 <= i < list.len() implies list[i] != Stage::ParseBody by {}
        }
    }
    if later.position + 1 < count {
        later.position = later.position + 1;
        return Handling::Pending(later);
    }
    let answer: Answer<D> = match later.command {
        IpcCommand::Magic => Answer::Text("Tunglies!".to_owned()),
        IpcCommand::StopClash => Answer::Json(ok_empty("Core stopped successfully".to_owned())),
        IpcCommand::UpdateWriter => Answer::Json(
            ok_empty("Update Writer successfully".to_owned()),
        ),
        _ => Answer::Json(ok_json(later.data)),
    };
    Handling::Finished { answer, fatal: false }
}

/// Decides what follows when the pending stage of a request has ended.
pub fn handle_request<D>(
    support: ProtocolSupport,
    pending: PendingRequest<D>,
    event: StageEvent<D>,
) -> (next: Handling<D>)
    requires
        pending.well_formed(),
        stage_event_fits(pending, event),
    ensures
        handling_follows(support, pending, event, next),
        next matches Handling::Pending(later) ==> later.well_formed(),
{
    let stage: Stage = stages(pending.command, pending.test_build)[pending.position];
    match event {
        StageEvent::Protocol(supplied) => match require_protocol_version(
            supplied,
            support.current,
            support.min_supported_revision,
        ) {
            Err(error) => refuse(error),
            Ok(()) => pass(pending, StageEvent::Protocol(supplied)),
        },
        StageEvent::ProxyChecked(Some(Err(error))) => refuse(
            ServiceError::invalid_proxy_config(error),
        ),
        StageEvent::ActiveOwner(active) => {
            let checked: Result<(), ServiceError> = match &pending.owner {
                Some(owner) => require_active_owner(&active, owner),
                None => Err(ServiceError::not_active()),
            };
            match checked {
                Err(error) => refuse(error),
                Ok(()) => pass(pending, StageEvent::ActiveOwner(active)),
            }
        },
        StageEvent::Session { active, token_hash } => {
            let checked: Result<ActiveOwnerState, ServiceError> = match (
                &pending.owner,
                &pending.session_shown,
            ) {
                (Some(owner), Some(shown)) => require_active_session(
                    active,
                    owner,
                    shown,
                    &token_hash,
                ),
                _ => Err(ServiceError::stale_owner_session()),
            };
            match checked {
                Err(error) => refuse(error),
                Ok(state) => pass(
                    pending,
                    StageEvent::Session { active: Ok(Some(state)), token_hash },
                ),
            }
        },
        StageEvent::Refused(error) => {
            if stage == Stage::TakeOver {
                Handling::DiscardUnstarted { error }
            } else {
                refuse(error)
            }
        },
        StageEvent::Failed(error) => {
            if stage == Stage::CleanUpLegacy {
                pass(pending, StageEvent::Failed(error))
            } else {
                fail(stage, error)
            }
        },
        other => pass(pending, other),
    }
}

/// The answer to a takeover that was refused, once the runtime that it left was
/// to be discarded.
pub fn answer_refused_takeover<D>(error: ServiceError, discarded: Result<(), String>) -> (reply:
    Reply<D>)
    ensures
        is_error(
            reply,
            error.code,
            with_failure(
                error.message@,
                "; failed to discard unused runtime generation: "@,
                discarded,
            ),
        ),
        takeover_refusal_follows(error, discarded, reply),
{
    let ServiceError { code, message } = error;
    let told: String = append_failure(
        message,
        "; failed to discard unused runtime generation: ",
        &discarded,
    );
    service_error(ServiceError { code, message: told })
}

/// What an owner's log writer is set to: whatever a client asks for, the log
/// stays in the directory that the service keeps for the owner. All else is as the
/// client asks for it.
pub fn owner_writer_config<R>(requested: WriterConfig<R>, logs_dir: String) -> (config:
    WriterConfig<R>)
    ensures
        config == (WriterConfig { directory: logs_dir, ..requested }),
{
    let mut config: WriterConfig<R> = requested;
    config.directory = logs_dir;
    config
}

/// Whether `states` are those of one request for `command` that has not been
/// answered yet, `events` being how its stages ended.
pub open spec fn is_handling<D>(
    support: ProtocolSupport,
    command: IpcCommand,
    test_build: bool,
    states: Seq<PendingRequest<D>>,
    events: Seq<StageEvent<D>>,
) -> bool {
    &&& states.len() == events.len() + 1
    &&& states[0].command == command
    &&& states[0].test_build == test_build
    &&& states[0].position == 0
    &&& forall|i: int|
        #![trigger events[i]]
        0 <= i < events.len() ==> {
            &&& stage_event_fits(states[i], events[i])
            &&& handling_follows(support, states[i], events[i], Handling::Pending(states[i + 1]))
        }
}

/// A request passes through all stages of its command, one after the other: none
/// is left out, and each has passed.
pub proof fn request_leaves_out_no_stage<D>(
    support: ProtocolSupport,
    command: IpcCommand,
    test_build: bool,
    states: Seq<PendingRequest<D>>,
    events: Seq<StageEvent<D>>,
    at: int,
)
    requires
        is_handling(support, command, test_build, states, events),
        0 <= at < states.len(),
    ensures
        states[at].command == command,
        states[at].test_build == test_build,
        states[at].position == at,
        at < stages_of(command, test_build).len(),
        forall|i: int|
            0 <= i < at ==> stage_passes(support, states[i], #[trigger] events[i]),
    decreases at,
{
    let list = stages_of(command, test_build);
    if at > 0 {
        request_leaves_out_no_stage(support, command, test_build, states, events, at - 1);
        let event = events[at - 1];
        assert(handling_follows(support, states[at - 1], event, Handling::Pending(states[at])));
    } else {
        assert(list.len() > 0);
    }
}

/// No stage behind authentication is reached without an accepted protocol
/// version and an authenticated owner, and that owner is kept to the end.
pub proof fn request_was_authenticated<D>(
    support: ProtocolSupport,
    command: IpcCommand,
    test_build: bool,
    states: Seq<PendingRequest<D>>,
    events: Seq<StageEvent<D>>,
    at: int,
)
    requires
        is_handling(support, command, test_build, states, events),
        !is_open(command),
        3 <= at < states.len(),
    ensures
        events[0] matches StageEvent::Protocol(supplied) && protocol_accepted(
            supplied,
            support.current,
            support.min_supported_revision,
        ),
        events[1] matches StageEvent::Parsed { session, .. } && states[at].session_shown == session
            && session is Some == takes_session(command),
        events[2] matches StageEvent::Authenticated(owner) && states[at].owner == Some(owner),
    decreases at,
{
    request_leaves_out_no_stage(support, command, test_build, states, events, at);
    let list = stages_of(command, test_build);
    assert(list[0] == Stage::CheckProtocol && list[1] == Stage::ParseBody && list[2]
        == Stage::Authenticate);
    if at > 3 {
        request_was_authenticated(support, command, test_build, states, events, at - 1);
        request_leaves_out_no_stage(support, command, test_build, states, events, at - 1);
        let event = events[at - 1];
        assert(handling_follows(support, states[at - 1], event, Handling::Pending(states[at])));
        assert forall|i: int| 3 <= i < list.len() implies list[i] != Stage::ParseBody && list[i]
            != Stage::Authenticate by {}
        assert(states[at - 1].stage() == list[at - 1]);
    } else {
        request_leaves_out_no_stage(support, command, test_build, states, events, 0);
        request_leaves_out_no_stage(support, command, test_build, states, events, 1);
        request_leaves_out_no_stage(support, command, test_build, states, events, 2);
        let first = events[0];
        let second = events[1];
        let third = events[2];
        assert(stage_passes(support, states[0], first));
        assert(stage_passes(support, states[1], second));
        assert(stage_passes(support, states[2], third));
    }
}

/// A command that asks for a session is carried out only for the active owner's
/// current session: behind the check, what was found has proved the session that
/// the request has shown, for the owner that it was authenticated as.
pub proof fn session_was_proved<D>(
    support: ProtocolSupport,
    command: IpcCommand,
    test_build: bool,
    states: Seq<PendingRequest<D>>,
    events: Seq<StageEvent<D>>,
    at: int,
)
    requires
        is_handling(support, command, test_build, states, events),
        takes_session(command),
        5 <= at < states.len(),
    ensures
        events[4] matches StageEvent::Session { active, token_hash } && session_holds(
            active,
            token_hash,
            states[at].owner->Some_0,
            states[at].session_shown->Some_0,
        ),
{
    request_was_authenticated(support, command, test_build, states, events, at);
    request_was_authenticated(support, command, test_build, states, events, 4);
    request_leaves_out_no_stage(support, command, test_build, states, events, at);
    request_leaves_out_no_stage(support, command, test_build, states, events, 4);
    let list = stages_of(command, test_build);
    assert(list[4] == Stage::RequireSession);
    let event = events[4];
    assert(stage_passes(support, states[4], event));
}

/// Logs are read only for the active owner.
pub proof fn logs_go_to_the_active_owner<D>(
    support: ProtocolSupport,
    command: IpcCommand,
    test_build: bool,
    states: Seq<PendingRequest<D>>,
    events: Seq<StageEvent<D>>,
    at: int,
)
    requires
        is_handling(support, command, test_build, states, events),
        command == IpcCommand::GetClashLogs || command == IpcCommand::GetClashLogSnapshot,
        5 <= at < states.len(),
    ensures
        events[4] matches StageEvent::ActiveOwner(active) && owner_is_active(
            active,
            states[at].owner->Some_0.key@,
        ),
{
    request_was_authenticated(support, command, test_build, states, events, at);
    request_was_authenticated(support, command, test_build, states, events, 4);
    request_leaves_out_no_stage(support, command, test_build, states, events, at);
    request_leaves_out_no_stage(support, command, test_build, states, events, 4);
    let list = stages_of(command, test_build);
    assert(list[4] == Stage::RequireOwner);
    let event = events[4];
    assert(stage_passes(support, states[4], event));
}

/// Whatever directory a client names for its log, the writer is set to the
/// directory that the service keeps for the owner, and so it is recorded; all else
/// that the client asks for is passed on unchanged.
pub proof fn log_stays_with_its_owner<D>(
    support: ProtocolSupport,
    test_build: bool,
    states: Seq<PendingRequest<D>>,
    events: Seq<StageEvent<D>>,
    at: int,
)
    requires
        is_handling(support, IpcCommand::UpdateWriter, test_build, states, events),
        6 <= at < states.len(),
    ensures
        states[at].stage() == Stage::UpdateWriter || states[at].stage() == Stage::PersistWriter,
        events[1] matches StageEvent::Parsed { writer: Some(requested), .. }
            && events[5] matches StageEvent::Located(logs_dir) && states[at].writer == Some(
            WriterConfig { directory: logs_dir, rest: requested.rest },
        ),
{
    let command = IpcCommand::UpdateWriter;
    let list = stages_of(command, test_build);
    assert(list =~= seq![
        Stage::CheckProtocol,
        Stage::ParseBody,
        Stage::Authenticate,
        Stage::LockLifecycle,
        Stage::RequireSession,
        Stage::LocateLogs,
        Stage::UpdateWriter,
        Stage::PersistWriter,
    ]);
    request_leaves_out_no_stage(support, command, test_build, states, events, at);
    writer_is_kept(support, test_build, states, events, 5);
    request_leaves_out_no_stage(support, command, test_build, states, events, 5);
    request_leaves_out_no_stage(support, command, test_build, states, events, 6);
    let located = events[5];
    assert(stage_event_fits(states[5], located));
    assert(handling_follows(support, states[5], located, Handling::Pending(states[6])));
    if at == 7 {
        let updated = events[6];
        assert(stage_event_fits(states[6], updated));
        assert(handling_follows(support, states[6], updated, Handling::Pending(states[7])));
    }
}

/// Between the body and the place of the log, the writer is what the body asks for.
proof fn writer_is_kept<D>(
    support: ProtocolSupport,
    test_build: bool,
    states: Seq<PendingRequest<D>>,
    events: Seq<StageEvent<D>>,
    at: int,
)
    requires
        is_handling(support, IpcCommand::UpdateWriter, test_build, states, events),
        2 <= at <= 5,
        at < states.len(),
    ensures
        events[1] matches StageEvent::Parsed { writer, .. } && writer is Some && states[at].writer
            == writer,
    decreases at,
{
    let command = IpcCommand::UpdateWriter;
    let list = stages_of(command, test_build);
    request_leaves_out_no_stage(support, command, test_build, states, events, at - 1);
    request_leaves_out_no_stage(support, command, test_build, states, events, at);
    let event = events[at - 1];
    assert(stage_event_fits(states[at - 1], event));
    assert(handling_follows(support, states[at - 1], event, Handling::Pending(states[at])));
    assert(list[1] == Stage::ParseBody && list[2] == Stage::Authenticate && list[3]
        == Stage::LockLifecycle && list[4] == Stage::RequireSession);
    if at > 2 {
        writer_is_kept(support, test_build, states, events, at - 1);
    }
}

/// Two requests to set the writer that differ only in the directory that the client
/// names, and go alike otherwise, have the same effect: from the place of the log
/// on, nothing tells one from the other.
pub proof fn directory_of_a_client_has_no_effect<D>(
    support: ProtocolSupport,
    test_build: bool,
    states: Seq<PendingRequest<D>>,
    events: Seq<StageEvent<D>>,
    other_states: Seq<PendingRequest<D>>,
    other_events: Seq<StageEvent<D>>,
    at: int,
)
    requires
        is_handling(support, IpcCommand::UpdateWriter, test_build, states, events),
        is_handling(support, IpcCommand::UpdateWriter, test_build, other_states, other_events),
        states[0] == other_states[0],
        6 <= at < states.len(),
        states.len() == other_states.len(),
        forall|i: int|
            0 <= i < events.len() && i != 1 ==> #[trigger] events[i] == other_events[i],
        events[1] matches StageEvent::Parsed { session, writer: Some(asked) }
            && other_events[1] matches StageEvent::Parsed {
            session: other_session,
            writer: Some(other_asked),
        } && session == other_session && asked.rest == other_asked.rest,
    ensures
        states[at] == other_states[at],
{
    log_stays_with_its_owner(support, test_build, states, events, at);
    log_stays_with_its_owner(support, test_build, other_states, other_events, at);
    assert(events[5] == other_events[5]);
    alike_but_for_the_writer(
        support,
        test_build,
        states,
        events,
        other_states,
        other_events,
        at,
    );
}

proof fn alike_but_for_the_writer<D>(
    support: ProtocolSupport,
    test_build: bool,
    states: Seq<PendingRequest<D>>,
    events: Seq<StageEvent<D>>,
    other_states: Seq<PendingRequest<D>>,
    other_events: Seq<StageEvent<D>>,
    at: int,
)
    requires
        is_handling(support, IpcCommand::UpdateWriter, test_build, states, events),
        is_handling(support, IpcCommand::UpdateWriter, test_build, other_states, other_events),
        states[0] == other_states[0],
        0 <= at < states.len(),
        states.len() == other_states.len(),
        forall|i: int|
            0 <= i < events.len() && i != 1 ==> #[trigger] events[i] == other_events[i],
        events.len() > 1 ==> (events[1] matches StageEvent::Parsed { session, .. }
            && other_events[1] matches StageEvent::Parsed { session: other_session, .. } && session
            == other_session),
    ensures
        states[at] == (PendingRequest { writer: states[at].writer, ..other_states[at] }),
    decreases at,
{
    if at > 0 {
        alike_but_for_the_writer(
            support,
            test_build,
            states,
            events,
            other_states,
            other_events,
            at - 1,
        );
        let event = events[at - 1];
        let other_event = other_events[at - 1];
        assert(handling_follows(support, states[at - 1], event, Handling::Pending(states[at])));
        assert(handling_follows(
            support,
            other_states[at - 1],
            other_event,
            Handling::Pending(other_states[at]),
        ));
    }
}

/// Whether a request for `command` was answered: `events` is how its stages ended, the
/// last of which has brought the answer, and `states` what the request was before each.
pub open spec fn is_answered<D>(
    support: ProtocolSupport,
    command: IpcCommand,
    test_build: bool,
    states: Seq<PendingRequest<D>>,
    events: Seq<StageEvent<D>>,
    answer: Answer<D>,
    fatal: bool,
) -> bool {
    &&& events.len() > 0
    &&& is_handling(support, command, test_build, states, events.drop_last())
    &&& stage_event_fits(states.last(), events.last())
    &&& handling_follows(
        support,
        states.last(),
        events.last(),
        Handling::Finished { answer, fatal },
    )
}

/// A started core is answered with what its takeover brought: the client learns the
/// generation of the very session that was committed, and what became of the very
/// proxy that it asked for. What the cleanup after an older service came to does not
/// matter.
pub proof fn start_is_answered_with_its_takeover<D>(
    support: ProtocolSupport,
    test_build: bool,
    states: Seq<PendingRequest<D>>,
    events: Seq<StageEvent<D>>,
    answer: Answer<D>,
    fatal: bool,
    started: ActiveOwnerState,
    outcome: ProxyApplyOutcome,
    at: int,
)
    requires
        is_answered(support, IpcCommand::StartClash, test_build, states, events, answer, fatal),
        0 <= at < events.len(),
        events[at] == (StageEvent::<D>::TakenOver { started, outcome }),
    ensures
        answer matches Answer::Json(reply) && {
            &&& reply.status == 200
            &&& reply.code == ReplyCode::Number(0)
            &&& reply.message@ == "Success"@
            &&& reply.data matches ReplyData::Started(result) && result.session.generation
                == started.generation && result.proxy_outcome == outcome
        },
        !fatal,
{
    let command = IpcCommand::StartClash;
    let earlier = events.drop_last();
    let list = stages_of(command, test_build);
    let last = states.len() - 1;
    request_leaves_out_no_stage(support, command, test_build, states, earlier, last);
    request_leaves_out_no_stage(support, command, test_build, states, earlier, at);
    assert(list[at] == Stage::TakeOver) by {
        if at < last {
            assert(earlier[at] == events[at]);
        }
        assert(stage_event_fits(states[at], events[at]));
    }
    assert(at == list.len() - 2);
    if at < last {
        assert(earlier[at] == events[at]);
        assert(handling_follows(
            support,
            states[at],
            events[at],
            Handling::Pending(states[at + 1]),
        ));
        assert(last == at + 1);
        assert(states[last].stage() == Stage::CleanUpLegacy);
    } else {
        assert(handling_follows(
            support,
            states[at],
            events[at],
            Handling::Finished { answer, fatal },
        ));
    }
}

/// A request to set the proxy is answered with what became of the proxy: the client
/// learns the very outcome, or the very failure.
pub proof fn proxy_request_is_answered_with_its_outcome<D>(
    support: ProtocolSupport,
    test_build: bool,
    states: Seq<PendingRequest<D>>,
    events: Seq<StageEvent<D>>,
    answer: Answer<D>,
    fatal: bool,
)
    requires
        is_answered(
            support,
            IpcCommand::SetSystemProxy,
            test_build,
            states,
            events,
            answer,
            fatal,
        ),
        events.len() == 7,
    ensures
        !fatal,
        answer matches Answer::Json(reply) && match events[6] {
            StageEvent::ProxyApplied(outcome) => {
                &&& reply.status == 200
                &&& reply.code == ReplyCode::Number(0)
                &&& reply.message@ == "Success"@
                &&& reply.data == ReplyData::<D>::ProxyOutcome(outcome)
            },
            StageEvent::Failed(error) => {
                &&& reply.status == 422
                &&& reply.code == ReplyCode::Error(ServiceErrorCode::ProxyApplyFailed)
                &&& reply.message@ == error@
                &&& reply.data == ReplyData::<D>::Nothing
            },
            _ => false,
        },
{
    let command = IpcCommand::SetSystemProxy;
    request_leaves_out_no_stage(support, command, test_build, states, events.drop_last(), 6);
    assert(stages_of(command, test_build)[6] == Stage::ApplyProxy);
}

/// A question is answered with what was found: a description of the protocol, a
/// status or logs come back as they were collected, and the snapshot of a log as it
/// was read.
pub proof fn question_is_answered_with_what_was_found<D>(
    support: ProtocolSupport,
    command: IpcCommand,
    test_build: bool,
    states: Seq<PendingRequest<D>>,
    events: Seq<StageEvent<D>>,
    answer: Answer<D>,
    fatal: bool,
)
    requires
        is_answered(support, command, test_build, states, events, answer, fatal),
        command == IpcCommand::GetVersion || command == IpcCommand::Status || command
            == IpcCommand::GetClashLogs || command == IpcCommand::GetClashLogSnapshot,
    ensures
        !fatal,
        events.last() matches StageEvent::Collected(found) ==> (answer matches Answer::Json(reply)
            && reply.status == 200 && reply.code == ReplyCode::Number(0) && reply.message@
            == "Success"@ && reply.data == ReplyData::Other(found)),
        events.last() matches StageEvent::Snapshot(text) ==> (answer matches Answer::Json(reply)
            && reply.status == 200 && reply.code == ReplyCode::Number(0) && reply.message@
            == "Success"@ && reply.data == ReplyData::<D>::LogSnapshot(text)),
        events.len() == (match command {
            IpcCommand::GetVersion => 2int,
            IpcCommand::Status => 5,
            _ => 6,
        }) ==> (match command {
            IpcCommand::GetVersion => events.last() is Collected,
            IpcCommand::Status => events.last() is Collected || events.last() is Failed,
            IpcCommand::GetClashLogs => events.last() is Collected,
            _ => events.last() is Snapshot || events.last() is Failed,
        }),
{
    let last = states.len() - 1;
    request_leaves_out_no_stage(support, command, test_build, states, events.drop_last(), last);
    let list = stages_of(command, test_build);
    assert(states[last].stage() == list[last]);
}

/// What has no result is answered in words, once all of it is done: the core was
/// stopped, the writer was set, the service is there.
pub proof fn deed_is_answered_once_it_is_done<D>(
    support: ProtocolSupport,
    command: IpcCommand,
    test_build: bool,
    states: Seq<PendingRequest<D>>,
    events: Seq<StageEvent<D>>,
    answer: Answer<D>,
    fatal: bool,
)
    requires
        is_answered(support, command, test_build, states, events, answer, fatal),
        events.last() is Done,
    ensures
        !fatal,
        command == IpcCommand::Magic ==> (answer matches Answer::Text(text) && text@
            == "Tunglies!"@),
        command == IpcCommand::StopClash ==> events.len() == 9 && (answer matches Answer::Json(
            reply,
        ) && reply.status == 200 && reply.code == ReplyCode::Number(0) && reply.message@
            == "Core stopped successfully"@ && reply.data == ReplyData::<D>::Nothing),
        command == IpcCommand::UpdateWriter ==> events.len() == 8 && (answer matches Answer::Json(
            reply,
        ) && reply.status == 200 && reply.code == ReplyCode::Number(0) && reply.message@
            == "Update Writer successfully"@ && reply.data == ReplyData::<D>::Nothing),
{
    let last = states.len() - 1;
    request_leaves_out_no_stage(support, command, test_build, states, events.drop_last(), last);
}

/// What the answer to a refused or failed request is like: the status that the kind of
/// the error calls for, the kind itself, the text of the error, and no data.
pub proof fn refusal_tells_why<D>(
    support: ProtocolSupport,
    pending: PendingRequest<D>,
    event: StageEvent<D>,
    next: Handling<D>,
)
    requires
        pending.well_formed(),
        stage_event_fits(pending, event),
        handling_follows(support, pending, event, next),
    ensures
        ({
            let told = |status: u16, code: ReplyCode, message: Seq<char>, fatal: bool|
                next matches Handling::Finished { answer: Answer::Json(reply), fatal: broken } && {
                    &&& broken == fatal
                    &&& reply.status == status
                    &&& reply.code == code
                    &&& reply.message@ == message
                    &&& reply.data == ReplyData::<D>::Nothing
                };
            let unavailable = |message: Seq<char>, fatal: bool|
                told(503, ReplyCode::Number(1), message, fatal);
            match event {
                StageEvent::Refused(error) => if pending.stage() == Stage::TakeOver {
                    next == (Handling::<D>::DiscardUnstarted { error })
                } else if error.code == ServiceErrorCode::UnauthorizedOwner {
                    told(401, ReplyCode::Error(error.code), error.message@, false)
                } else if error.code == ServiceErrorCode::NotActive {
                    told(409, ReplyCode::Error(error.code), error.message@, false)
                } else {
                    told(422, ReplyCode::Error(error.code), error.message@, false)
                },
                StageEvent::ProxyChecked(Some(Err(error))) => told(
                    422,
                    ReplyCode::Error(ServiceErrorCode::InvalidProxyConfig),
                    error@,
                    false,
                ),
                StageEvent::Failed(error) => match pending.stage() {
                    Stage::IdentifyPeer => next == (Handling::Finished {
                        answer: Answer::<D>::Failure(error),
                        fatal: false,
                    }),
                    Stage::ParseBody => told(
                        400,
                        ReplyCode::Number(400),
                        "Invalid JSON: "@ + error@,
                        false,
                    ),
                    Stage::HashProposedToken => told(
                        400,
                        ReplyCode::Number(400),
                        "Invalid proposed owner session token"@,
                        false,
                    ),
                    Stage::ApplyProxy => told(
                        422,
                        ReplyCode::Error(ServiceErrorCode::ProxyApplyFailed),
                        error@,
                        false,
                    ),
                    Stage::LoadActiveOwner => unavailable(
                        "Failed to load active owner: "@ + error@,
                        false,
                    ),
                    Stage::CollectStatus => unavailable(
                        "Failed to collect service status: "@ + error@,
                        false,
                    ),
                    Stage::ReadSnapshot => unavailable(
                        "Failed to read core log snapshot: "@ + error@,
                        false,
                    ),
                    Stage::StopCore => unavailable("Failed to stop core: "@ + error@, false),
                    Stage::PersistStopped => unavailable(
                        "Failed to persist desired state: "@ + error@,
                        true,
                    ),
                    Stage::ClearActiveOwner => unavailable(
                        "Failed to clear active owner: "@ + error@,
                        true,
                    ),
                    Stage::UpdateWriter => unavailable(
                        "Failed to update writer: "@ + error@,
                        false,
                    ),
                    Stage::PersistWriter => unavailable(
                        "Failed to persist writer config: "@ + error@,
                        false,
                    ),
                    _ => true,
                },
                _ => true,
            }
        }),
{
}

/// Who is let on, and who is told what: a client of the same epoch whose revision is
/// not too old; the owner that is recorded as the active one; and the session of that
/// owner whose generation and token hash are the recorded ones. All others are
/// answered with the error that says so, and nothing else is found to be wrong.
pub proof fn checks_let_on_whom_they_are_for<D>(
    support: ProtocolSupport,
    pending: PendingRequest<D>,
    event: StageEvent<D>,
    next: Handling<D>,
)
    requires
        pending.well_formed(),
        stage_event_fits(pending, event),
        handling_follows(support, pending, event, next),
    ensures
        ({
            let goes_on = next matches Handling::Pending(later) && later.position
                == pending.position + 1 && later.command == pending.command && later.test_build
                == pending.test_build;
            let told = |status: u16, code: ServiceErrorCode, message: Seq<char>|
                next matches Handling::Finished { answer: Answer::Json(reply), fatal } && {
                    &&& !fatal
                    &&& reply.status == status
                    &&& reply.code == ReplyCode::Error(code)
                    &&& reply.message@ == message
                    &&& reply.data == ReplyData::<D>::Nothing
                };
            match event {
                StageEvent::Protocol(Some(version)) => if version.epoch == support.current.epoch
                    && version.revision >= support.min_supported_revision {
                    goes_on
                } else {
                    told(
                        422,
                        ServiceErrorCode::ProtocolMismatch,
                        "Service protocol version is not supported"@,
                    )
                },
                StageEvent::Protocol(None) => told(
                    422,
                    ServiceErrorCode::ProtocolMismatch,
                    "Service protocol version is not supported"@,
                ),
                StageEvent::ActiveOwner(Ok(Some(state))) => if pending.owner matches Some(owner)
                    && state.owner_key@ == owner.key@ {
                    goes_on
                } else {
                    told(409, ServiceErrorCode::NotActive, "Owner is not active"@)
                },
                StageEvent::ActiveOwner(_) => told(
                    409,
                    ServiceErrorCode::NotActive,
                    "Owner is not active"@,
                ),
                StageEvent::Session { active: Ok(Some(state)), token_hash: Ok(hash) } => if (
                pending.owner matches Some(owner) && state.owner_key@ == owner.key@) && (
                pending.session_shown matches Some(shown) && state.generation == shown.generation)
                    && state.session_token_hash@ == hash@ {
                    goes_on
                } else {
                    told(422, ServiceErrorCode::StaleOwnerSession, "Owner session is stale"@)
                },
                StageEvent::Session { .. } => told(
                    422,
                    ServiceErrorCode::StaleOwnerSession,
                    "Owner session is stale"@,
                ),
                StageEvent::ProxyChecked(Some(Err(_))) => true,
                StageEvent::ProxyChecked(_) => goes_on,
                StageEvent::Authenticated(owner) => goes_on && (next matches Handling::Pending(
                    later,
                ) && later.owner == Some(owner)),
                StageEvent::Parsed { session, .. } => goes_on && (next matches Handling::Pending(
                    later,
                ) && later.session_shown == session),
                _ => true,
            }
        }),
{
    let list = stages_of(pending.command, pending.test_build);
    assert(pending.stage() == list[pending.position as int]);
}

/// Whether this is a request of which nothing has been handled yet.
pub open spec fn request_begins<D>(
    command: IpcCommand,
    test_build: bool,
    pending: PendingRequest<D>,
) -> bool {
    pending == PendingRequest {
        command,
        test_build,
        position: 0,
        owner: None,
        session_shown: None,
        writer: None::<WriterConfig<D>>,
        data: ReplyData::<D>::Nothing,
    }
}

/// A request begins at the first stage of its own command, with nothing known of who
/// makes it and nothing to answer with.
pub proof fn requests_begin_with_nothing<D>(
    support: ProtocolSupport,
    command: IpcCommand,
    test_build: bool,
    pending: PendingRequest<D>,
)
    requires
        request_begins(command, test_build, pending),
    ensures
        is_handling(support, command, test_build, seq![pending], Seq::empty()),
        pending.stage() == (if command == IpcCommand::Magic || command == IpcCommand::GetVersion {
            Stage::IdentifyPeer
        } else {
            Stage::CheckProtocol
        }),
        pending.owner is None,
        pending.session_shown is None,
        pending.writer is None,
        pending.data is Nothing,
{
    assert(seq![pending][0] == pending);
}

/// Whether a takeover that was refused is answered like this.
pub open spec fn takeover_refusal_follows<D>(
    error: ServiceError,
    discarded: Result<(), String>,
    reply: Reply<D>,
) -> bool {
    is_error(
        reply,
        error.code,
        with_failure(
            error.message@,
            "; failed to discard unused runtime generation: "@,
            discarded,
        ),
    )
}

/// A takeover that was refused is answered with its own kind of error and its own text,
/// followed by why the runtime could not be discarded, where it could not.
pub proof fn refused_takeover_is_told<D>(
    error: ServiceError,
    discarded: Result<(), String>,
    reply: Reply<D>,
)
    requires
        takeover_refusal_follows(error, discarded, reply),
    ensures
        reply.code == ReplyCode::Error(error.code),
        reply.data is Nothing,
        reply.status == (match error.code {
            ServiceErrorCode::UnauthorizedOwner => 401u16,
            ServiceErrorCode::NotActive => 409u16,
            _ => 422u16,
        }),
        discarded is Ok ==> reply.message@ == error.message@,
        discarded matches Err(second) ==> reply.message@ == error.message@
            + "; failed to discard unused runtime generation: "@ + second@,
{
}

} // verus!
