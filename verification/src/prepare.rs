//! The preparation of a runtime for an owner: the order of its steps, and the
//! discard of a generation whose bundle is refused.
use crate::assets::RuntimeBundle;
use crate::error::{invalid_asset, is_invalid_asset, ServiceError, ServiceErrorCode};
use crate::joins::{join_path, path_in};
use crate::layout::{
    bundle_sound, config_lies_below, config_path_in, layout_comes_to, rejects_invalid_assets,
    unsound_bundle_is_refused, LayoutEvent, RuntimeLayout,
};
use crate::native::Platform;
use crate::runtime::{
    ClashConfig, CoreConfig, PreparedRuntime, PreparedRuntimeState, WriterConfig,
};
use crate::text::joined;
use vstd::prelude::*;
use vstd::string::*;

verus! {

/// A step of a preparation.
#[derive(Clone, Copy, Debug, PartialEq, Eq, Structural)]
pub enum PrepareStep {
    ValidateCore,
    SecureOwnerState,
    PersistIdentity,
    PrepareIpcDirectory,
    CreateLogs,
    SecureLogs,
    CreateGeneration,
    Materialize,
    DiscardRejected,
    SnapshotStale,
    Finished,
}

/// A preparation under way: the step that is to be performed next, with what
/// earlier steps left for it.
#[derive(Debug)]
pub enum RuntimePreparation {
    ValidateCore,
    SecureOwnerState,
    PersistIdentity,
    PrepareIpcDirectory,
    CreateLogs,
    SecureLogs,
    CreateGeneration,
    Materialize { prepared: PreparedRuntime },
    DiscardRejected { prepared: PreparedRuntime, error: ServiceError },
    SnapshotStale { prepared: PreparedRuntime },
    Finished { result: Result<PreparedRuntime, ServiceError> },
}

/// The paths of a new generation, as `platform` writes them: its directory, the
/// core, the core's endpoint and the log directory.
#[derive(Debug)]
pub struct GenerationPaths {
    pub platform: Platform,
    pub core_path: String,
    pub core_ipc_path: String,
    pub runtime: String,
    pub logs: String,
}

/// How a step ended. A failure carries the text of its error, a rejection the
/// error itself.
#[derive(Debug)]
pub enum PrepareEvent {
    Done,
    Created(GenerationPaths),
    Snapshot(Vec<String>),
    Failed(String),
    Rejected(ServiceError),
}

impl RuntimePreparation {
    /// The step that is to be performed.
    pub open spec fn step(&self) -> PrepareStep {
        match self {
            RuntimePreparation::ValidateCore => PrepareStep::ValidateCore,
            RuntimePreparation::SecureOwnerState => PrepareStep::SecureOwnerState,
            RuntimePreparation::PersistIdentity => PrepareStep::PersistIdentity,
            RuntimePreparation::PrepareIpcDirectory => PrepareStep::PrepareIpcDirectory,
            RuntimePreparation::CreateLogs => PrepareStep::CreateLogs,
            RuntimePreparation::SecureLogs => PrepareStep::SecureLogs,
            RuntimePreparation::CreateGeneration => PrepareStep::CreateGeneration,
            RuntimePreparation::Materialize { .. } => PrepareStep::Materialize,
            RuntimePreparation::DiscardRejected { .. } => PrepareStep::DiscardRejected,
            RuntimePreparation::SnapshotStale { .. } => PrepareStep::SnapshotStale,
            RuntimePreparation::Finished { .. } => PrepareStep::Finished,
        }
    }
}

/// Whether an event can end a step.
pub open spec fn prepare_event_fits(step: PrepareStep, event: PrepareEvent) -> bool {
    match step {
        PrepareStep::ValidateCore => event is Done || event is Rejected,
        PrepareStep::SecureOwnerState => event is Done || event is Failed,
        PrepareStep::PersistIdentity => event is Done || event is Failed,
        PrepareStep::PrepareIpcDirectory => event is Done || event is Rejected,
        PrepareStep::CreateLogs => event is Done || event is Failed,
        PrepareStep::SecureLogs => event is Done || event is Rejected,
        PrepareStep::CreateGeneration => event is Created || event is Rejected,
        PrepareStep::Materialize => event is Done || event is Rejected,
        PrepareStep::DiscardRejected => event is Done || event is Failed,
        PrepareStep::SnapshotStale => event is Snapshot,
        PrepareStep::Finished => false,
    }
}

/// The runtime that a new generation is, before anything is laid out in it.
pub open spec fn prepared_from(paths: GenerationPaths, prepared: PreparedRuntime) -> bool {
    &&& prepared.clash_config == ClashConfig {
        core_config: CoreConfig {
            core_path: paths.core_path,
            core_ipc_path: paths.core_ipc_path,
            ..prepared.clash_config.core_config
        },
        log_config: WriterConfig { directory: paths.logs, rest: () },
    }
    &&& prepared.clash_config.core_config.config_dir@ == paths.runtime@
    &&& prepared.clash_config.core_config.config_path@ == config_path_in(
        paths.platform,
        paths.runtime@,
    )
    &&& prepared.runtime == paths.runtime
    &&& prepared.stale_runtime_paths@.len() == 0
    &&& prepared.state == PreparedRuntimeState::Unused
}

/// Whether a preparation has ended with this refusal.
pub open spec fn prepare_refused(next: RuntimePreparation, message: Seq<char>) -> bool {
    next matches RuntimePreparation::Finished { result: Err(refusal) } && is_invalid_asset(
        refusal,
        message,
    )
}

/// What a preparation becomes when its pending step ends.
pub open spec fn prepare_follows(
    pending: RuntimePreparation,
    event: PrepareEvent,
    next: RuntimePreparation,
) -> bool {
    match (pending, event) {
        (RuntimePreparation::Materialize { prepared }, PrepareEvent::Rejected(error)) => next
            == (RuntimePreparation::DiscardRejected {
            prepared: PreparedRuntime { state: PreparedRuntimeState::Unused, ..prepared },
            error,
        }),
        (RuntimePreparation::DiscardRejected { error, .. }, _) => next
            == (RuntimePreparation::Finished { result: Err(error) }),
        (_, PrepareEvent::Rejected(error)) => next == (RuntimePreparation::Finished {
            result: Err(error),
        }),
        (RuntimePreparation::ValidateCore, _) => next is SecureOwnerState,
        (RuntimePreparation::SecureOwnerState, PrepareEvent::Failed(error)) => prepare_refused(
            next,
            "failed to secure owner state root: "@ + error@,
        ),
        (RuntimePreparation::SecureOwnerState, _) => next is PersistIdentity,
        (RuntimePreparation::PersistIdentity, PrepareEvent::Failed(error)) => prepare_refused(
            next,
            "failed to persist owner identity: "@ + error@,
        ),
        (RuntimePreparation::PersistIdentity, _) => next is PrepareIpcDirectory,
        (RuntimePreparation::PrepareIpcDirectory, _) => next is CreateLogs,
        (RuntimePreparation::CreateLogs, PrepareEvent::Failed(error)) => prepare_refused(
            next,
            "failed to create owner log directory: "@ + error@,
        ),
        (RuntimePreparation::CreateLogs, _) => next is SecureLogs,
        (RuntimePreparation::SecureLogs, _) => next is CreateGeneration,
        (RuntimePreparation::CreateGeneration, PrepareEvent::Created(paths)) => next matches
            RuntimePreparation::Materialize { prepared } && prepared_from(paths, prepared),
        (RuntimePreparation::Materialize { prepared }, _) => next
            == (RuntimePreparation::SnapshotStale { prepared }),
        (RuntimePreparation::SnapshotStale { prepared }, PrepareEvent::Snapshot(stale)) => next
            == (RuntimePreparation::Finished {
            result: Ok(PreparedRuntime { stale_runtime_paths: stale, ..prepared }),
        }),
        _ => false,
    }
}

/// The step that follows a step that succeeded or failed.
pub open spec fn next_prepare_step(step: PrepareStep, succeeded: bool) -> PrepareStep {
    if !succeeded {
        if step == PrepareStep::Materialize {
            PrepareStep::DiscardRejected
        } else {
            PrepareStep::Finished
        }
    } else {
        match step {
            PrepareStep::ValidateCore => PrepareStep::SecureOwnerState,
            PrepareStep::SecureOwnerState => PrepareStep::PersistIdentity,
            PrepareStep::PersistIdentity => PrepareStep::PrepareIpcDirectory,
            PrepareStep::PrepareIpcDirectory => PrepareStep::CreateLogs,
            PrepareStep::CreateLogs => PrepareStep::SecureLogs,
            PrepareStep::SecureLogs => PrepareStep::CreateGeneration,
            PrepareStep::CreateGeneration => PrepareStep::Materialize,
            PrepareStep::Materialize => PrepareStep::SnapshotStale,
            _ => PrepareStep::Finished,
        }
    }
}

fn refuse(lead: &str, error: &str) -> (next: RuntimePreparation)
    ensures
        prepare_refused(next, lead@ + error@),
{
    RuntimePreparation::Finished { result: Err(invalid_asset(joined(lead, error))) }
}

fn prepared_runtime(paths: GenerationPaths) -> (prepared: PreparedRuntime)
    ensures
        prepared_from(paths, prepared),
{
    proof {
        config_lies_below(paths.platform);
    }
    let config_dir: String = paths.runtime.as_str().to_owned();
    let config_path: String = join_path(paths.platform, paths.runtime.as_str(), "config.yaml");
    PreparedRuntime {
        clash_config: ClashConfig {
            core_config: CoreConfig {
                core_path: paths.core_path,
                core_ipc_path: paths.core_ipc_path,
                config_path,
                config_dir,
            },
            log_config: WriterConfig { directory: paths.logs, rest: () },
        },
        runtime: paths.runtime,
        stale_runtime_paths: Vec::new(),
        state: PreparedRuntimeState::Unused,
    }
}

/// Decides what follows when the pending step of a preparation has ended.
pub fn prepare_runtime(pending: RuntimePreparation, event: PrepareEvent) -> (next:
    RuntimePreparation)
    requires
        prepare_event_fits(pending.step(), event),
    ensures
        prepare_follows(pending, event, next),
        next.step() == next_prepare_step(
            pending.step(),
            !(event is Failed) && !(event is Rejected),
        ),
{
    match event {
        PrepareEvent::Rejected(error) => match pending {
            RuntimePreparation::Materialize { prepared } => {
                let mut rejected: PreparedRuntime = prepared;
                rejected.begin_discard();
                RuntimePreparation::DiscardRejected { prepared: rejected, error }
            },
            _ => RuntimePreparation::Finished { result: Err(error) },
        },
        PrepareEvent::Failed(text) => match pending {
            RuntimePreparation::SecureOwnerState => refuse(
                "failed to secure owner state root: ",
                text.as_str(),
            ),
            RuntimePreparation::PersistIdentity => refuse(
                "failed to persist owner identity: ",
                text.as_str(),
            ),
            RuntimePreparation::DiscardRejected { error, .. } => RuntimePreparation::Finished {
                result: Err(error),
            },
            _ => refuse("failed to create owner log directory: ", text.as_str()),
        },
        PrepareEvent::Created(paths) => RuntimePreparation::Materialize {
            prepared: prepared_runtime(paths),
        },
        PrepareEvent::Snapshot(stale) => match pending {
            RuntimePreparation::SnapshotStale { prepared } => {
                let mut ready: PreparedRuntime = prepared;
                ready.stale_runtime_paths = stale;
                RuntimePreparation::Finished { result: Ok(ready) }
            },
            other => other,
        },
        PrepareEvent::Done => match pending {
            RuntimePreparation::ValidateCore => RuntimePreparation::SecureOwnerState,
            RuntimePreparation::SecureOwnerState => RuntimePreparation::PersistIdentity,
            RuntimePreparation::PersistIdentity => RuntimePreparation::PrepareIpcDirectory,
            RuntimePreparation::PrepareIpcDirectory => RuntimePreparation::CreateLogs,
            RuntimePreparation::CreateLogs => RuntimePreparation::SecureLogs,
            RuntimePreparation::SecureLogs => RuntimePreparation::CreateGeneration,
            RuntimePreparation::Materialize { prepared } => RuntimePreparation::SnapshotStale {
                prepared,
            },
            RuntimePreparation::DiscardRejected { error, .. } => RuntimePreparation::Finished {
                result: Err(error),
            },
            other => other,
        },
    }
}

/// How many steps can still come, at most.
pub open spec fn prepare_steps_left(step: PrepareStep) -> nat {
    match step {
        PrepareStep::ValidateCore => 9,
        PrepareStep::SecureOwnerState => 8,
        PrepareStep::PersistIdentity => 7,
        PrepareStep::PrepareIpcDirectory => 6,
        PrepareStep::CreateLogs => 5,
        PrepareStep::SecureLogs => 4,
        PrepareStep::CreateGeneration => 3,
        PrepareStep::Materialize => 2,
        PrepareStep::DiscardRejected => 1,
        PrepareStep::SnapshotStale => 1,
        PrepareStep::Finished => 0,
    }
}

/// The steps that a preparation performs from `step` on, where `succeeds` tells
/// which steps succeed.
pub open spec fn prepare_steps_from(
    step: PrepareStep,
    succeeds: spec_fn(PrepareStep) -> bool,
) -> Seq<PrepareStep>
    decreases prepare_steps_left(step),
{
    if step == PrepareStep::Finished {
        Seq::empty()
    } else {
        seq![step] + prepare_steps_from(next_prepare_step(step, succeeds(step)), succeeds)
    }
}

/// The steps of a preparation in which everything succeeds.
pub open spec fn prepare_order() -> Seq<PrepareStep> {
    seq![
        PrepareStep::ValidateCore,
        PrepareStep::SecureOwnerState,
        PrepareStep::PersistIdentity,
        PrepareStep::PrepareIpcDirectory,
        PrepareStep::CreateLogs,
        PrepareStep::SecureLogs,
        PrepareStep::CreateGeneration,
        PrepareStep::Materialize,
        PrepareStep::SnapshotStale,
    ]
}

/// Where the steps before the layout succeed, the bundle is laid out in the
/// generation that was created for it; what stands there is taken for stale
/// only after the layout has succeeded, and a generation whose layout fails is
/// discarded.
pub proof fn preparation_has_exact_order(succeeds: spec_fn(PrepareStep) -> bool)
    requires
        forall|i: int| 0 <= i < 7 ==> succeeds(#[trigger] prepare_order()[i]),
    ensures
        prepare_steps_from(PrepareStep::ValidateCore, succeeds) == (if succeeds(
            PrepareStep::Materialize,
        ) {
            prepare_order()
        } else {
            prepare_order().update(8, PrepareStep::DiscardRejected)
        }),
{
    reveal_with_fuel(prepare_steps_from, 11);
    let order = prepare_order();
    assert(succeeds(order[0]) && succeeds(order[1]) && succeeds(order[2]) && succeeds(order[3])
        && succeeds(order[4]) && succeeds(order[5]) && succeeds(order[6]));
}

/// A preparation stops at the first step before the layout that fails.
pub proof fn preparation_stops_at_first_failure(
    succeeds: spec_fn(PrepareStep) -> bool,
    failing: int,
)
    requires
        0 <= failing < 7,
        forall|i: int| 0 <= i < failing ==> succeeds(#[trigger] prepare_order()[i]),
        !succeeds(prepare_order()[failing]),
    ensures
        prepare_steps_from(PrepareStep::ValidateCore, succeeds) == prepare_order().take(
            failing + 1,
        ),
{
    stops_at_first_failure_from(succeeds, 0, failing);
    assert(prepare_order().subrange(0, failing + 1) =~= prepare_order().take(failing + 1));
}

proof fn stops_at_first_failure_from(
    succeeds: spec_fn(PrepareStep) -> bool,
    from: int,
    failing: int,
)
    requires
        0 <= from <= failing < 7,
        forall|i: int| from <= i < failing ==> succeeds(#[trigger] prepare_order()[i]),
        !succeeds(prepare_order()[failing]),
    ensures
        prepare_steps_from(prepare_order()[from], succeeds) == prepare_order().subrange(
            from,
            failing + 1,
        ),
    decreases failing - from,
{
    let order = prepare_order();
    if from < failing {
        assert(succeeds(order[from]));
        stops_at_first_failure_from(succeeds, from + 1, failing);
        assert(next_prepare_step(order[from], true) == order[from + 1]);
        assert(seq![order[from]] + order.subrange(from + 1, failing + 1) =~= order.subrange(
            from,
            failing + 1,
        ));
    } else {
        assert(prepare_steps_from(PrepareStep::Finished, succeeds) =~= Seq::empty());
        assert(seq![order[from]] + Seq::empty() =~= order.subrange(from, failing + 1));
    }
}

/// A refused bundle leaves no generation behind: a preparation that has created
/// one ends in an error only after it was to be discarded, and the error is the
/// one that refused the bundle.
pub proof fn refused_bundle_is_discarded(
    pending: RuntimePreparation,
    event: PrepareEvent,
    refusal: ServiceError,
)
    requires
        prepare_event_fits(pending.step(), event),
        prepare_follows(pending, event, RuntimePreparation::Finished { result: Err(refusal) }),
        pending is Materialize || pending is DiscardRejected || pending is SnapshotStale,
    ensures
        pending matches RuntimePreparation::DiscardRejected { error, .. } && error == refusal,
{
}

/// Whether `states` are those of one preparation, `events` being how its steps
/// ended.
pub open spec fn is_preparation(
    states: Seq<RuntimePreparation>,
    events: Seq<PrepareEvent>,
) -> bool {
    &&& states.len() == events.len() + 1
    &&& states[0] is ValidateCore
    &&& forall|i: int|
        #![trigger events[i]]
        0 <= i < events.len() ==> {
            &&& prepare_event_fits(states[i].step(), events[i])
            &&& prepare_follows(states[i], events[i], states[i + 1])
        }
}

/// The generations of an owner after a step: one is there once it was created, and
/// gone once it was discarded. No other step adds or removes one.
pub open spec fn generations_after(
    generations: Set<Seq<char>>,
    pending: RuntimePreparation,
    event: PrepareEvent,
) -> Set<Seq<char>> {
    match (pending, event) {
        (RuntimePreparation::CreateGeneration, PrepareEvent::Created(paths)) => generations.insert(
            paths.runtime@,
        ),
        (RuntimePreparation::DiscardRejected { prepared, .. }, PrepareEvent::Done) => {
            generations.remove(prepared.runtime@)
        },
        _ => generations,
    }
}

/// Whether `generations` are those of an owner before and after each step of a
/// preparation. A generation is created only where there is none of its name.
pub open spec fn generations_follow(
    states: Seq<RuntimePreparation>,
    events: Seq<PrepareEvent>,
    generations: Seq<Set<Seq<char>>>,
) -> bool {
    &&& generations.len() == states.len()
    &&& forall|i: int|
        #![trigger events[i]]
        0 <= i < events.len() ==> {
            &&& events[i] matches PrepareEvent::Created(paths) ==> !generations[i].contains(
                paths.runtime@,
            )
            &&& generations[i + 1] == generations_after(generations[i], states[i], events[i])
        }
}

/// The step of a preparation tells how many steps came before it.
proof fn preparation_is_at(
    states: Seq<RuntimePreparation>,
    events: Seq<PrepareEvent>,
    at: int,
)
    requires
        is_preparation(states, events),
        0 <= at < states.len(),
    ensures
        states[at] is Finished || prepare_steps_left(states[at].step()) == 9 - at,
    decreases at,
{
    if at > 0 {
        preparation_is_at(states, events, at - 1);
        let event = events[at - 1];
    }
}

/// A bundle that cannot be laid out leaves nothing behind: once a generation was
/// created for it, the preparation discards that very generation and ends in the
/// refusal of the layout, which is that of an invalid asset as long as what is
/// rejected on the way is rejected as one. Where the discard succeeds, the owner has the
/// generations that there were before; where it fails, that one more is left.
pub proof fn unsound_bundle_leaves_nothing_behind(
    platform: Platform,
    bundle: RuntimeBundle,
    states: Seq<RuntimePreparation>,
    events: Seq<PrepareEvent>,
    generations: Seq<Set<Seq<char>>>,
    layout_states: Seq<RuntimeLayout>,
    layout_events: Seq<LayoutEvent>,
    outcome: Result<(), ServiceError>,
    at: int,
)
    requires
        is_preparation(states, events),
        generations_follow(states, events, generations),
        states.last() is Finished,
        0 <= at < events.len(),
        states[at] is Materialize,
        layout_comes_to(platform, bundle, layout_states, layout_events, outcome),
        events[at] == (match outcome {
            Ok(_) => PrepareEvent::Done,
            Err(refusal) => PrepareEvent::Rejected(refusal),
        }),
        !bundle_sound(platform, bundle),
    ensures
        outcome matches Err(refusal) && {
            &&& rejects_invalid_assets(layout_events) ==> refusal.code
                == ServiceErrorCode::InvalidRuntimeAsset
            &&& states.len() == at + 3
            &&& states[at] matches RuntimePreparation::Materialize { prepared: created }
                && states[at + 1] matches RuntimePreparation::DiscardRejected { prepared, error }
                && prepared.runtime == created.runtime && error == refusal
            &&& states.last() == (RuntimePreparation::Finished { result: Err(refusal) })
        },
        events.last() is Done ==> generations.last() == generations[0],
        events.last() is Failed ==> (events[6] matches PrepareEvent::Created(paths)
            && generations.last() == generations[0].insert(paths.runtime@)),
{
    unsound_bundle_is_refused(platform, bundle, layout_states, layout_events, outcome);
    preparation_is_at(states, events, at);
    let _ = events[at];
    assert(!(states[at + 1] is Finished));
    let _ = events[at + 1];
    if events.len() > at + 2 {
        let _ = events[at + 2];
    }
    assert(at == 7);
    assert(states[6] is CreateGeneration) by {
        preparation_is_at(states, events, 6);
        let _ = events[6];
    }
    generations_are_untouched(states, events, generations, 6);
    let _ = events[6];
    let created = events[6]->Created_0.runtime@;
    assert(generations[7] == generations[0].insert(created));
    assert(generations[8] == generations[7]);
    assert(generations[0].insert(created).remove(created) =~= generations[0]);
}

proof fn generations_are_untouched(
    states: Seq<RuntimePreparation>,
    events: Seq<PrepareEvent>,
    generations: Seq<Set<Seq<char>>>,
    at: int,
)
    requires
        is_preparation(states, events),
        generations_follow(states, events, generations),
        0 <= at <= 6,
        at < states.len(),
    ensures
        generations[at] == generations[0],
    decreases at,
{
    if at > 0 {
        generations_are_untouched(states, events, generations, at - 1);
        preparation_is_at(states, events, at - 1);
        let _ = events[at - 1];
    }
}

/// What a preparation works on next is told by how many steps have succeeded: the core is
/// validated, the owner's state is secured, its identity recorded, the directory of the
/// endpoint prepared, the logs created and secured, the generation created and laid out,
/// and what is stale is looked for last.
pub proof fn preparation_works_in_order(
    states: Seq<RuntimePreparation>,
    events: Seq<PrepareEvent>,
    at: int,
)
    requires
        is_preparation(states, events),
        0 <= at < states.len(),
        forall|i: int|
            0 <= i < at ==> !((#[trigger] events[i]) is Failed) && !(events[i] is Rejected),
    ensures
        at <= 9,
        at == 0 ==> states[at] is ValidateCore,
        at == 1 ==> states[at] is SecureOwnerState,
        at == 2 ==> states[at] is PersistIdentity,
        at == 3 ==> states[at] is PrepareIpcDirectory,
        at == 4 ==> states[at] is CreateLogs,
        at == 5 ==> states[at] is SecureLogs,
        at == 6 ==> states[at] is CreateGeneration,
        at == 7 ==> states[at] is Materialize,
        at == 8 ==> states[at] is SnapshotStale,
        at == 9 ==> (states[at] matches RuntimePreparation::Finished { result } && result is Ok),
    decreases at,
{
    if at > 0 {
        preparation_works_in_order(states, events, at - 1);
        let _ = events[at - 1];
    }
}

/// A preparation that succeeds hands back the generation that was created, with the
/// core, the endpoint and the logs that it was created with, a configuration that lies in
/// the runtime itself, and the stale directories that were found; nothing has been
/// started from it yet.
pub proof fn preparation_hands_back_the_generation(
    states: Seq<RuntimePreparation>,
    events: Seq<PrepareEvent>,
    prepared: PreparedRuntime,
)
    requires
        is_preparation(states, events),
        states.last() == (RuntimePreparation::Finished { result: Ok(prepared) }),
    ensures
        events.len() == 9,
        events[6] matches PrepareEvent::Created(paths) && {
            let core = prepared.clash_config.core_config;
            &&& prepared.runtime@ == paths.runtime@
            &&& core.core_path@ == paths.core_path@
            &&& core.core_ipc_path@ == paths.core_ipc_path@
            &&& core.config_dir@ == paths.runtime@
            &&& core.config_path@ == path_in(paths.platform, paths.runtime@, "config.yaml"@)
            &&& prepared.clash_config.log_config.directory@ == paths.logs@
        },
        events[8] matches PrepareEvent::Snapshot(stale) && prepared.stale_runtime_paths@ == stale@,
        prepared.state == PreparedRuntimeState::Unused,
        forall|i: int|
            0 <= i < 9 ==> !((#[trigger] events[i]) is Failed) && !(events[i] is Rejected),
{
    let end = events.len() as int;
    assert(end > 0);
    preparation_is_at(states, events, end - 1);
    let _ = events[end - 1];
    assert(states[end - 1] is SnapshotStale);
    assert(end == 9);
    preparation_is_at(states, events, 0);
    preparation_is_at(states, events, 1);
    preparation_is_at(states, events, 2);
    preparation_is_at(states, events, 3);
    preparation_is_at(states, events, 4);
    preparation_is_at(states, events, 5);
    preparation_is_at(states, events, 6);
    preparation_is_at(states, events, 7);
    let _ = events[7];
    let _ = events[6];
    let _ = events[5];
    let _ = events[4];
    let _ = events[3];
    let _ = events[2];
    let _ = events[1];
    let _ = events[0];
}

/// A preparation is refused only where a step failed, and the refusal tells which: what
/// was rejected is handed on as it is, also where the generation was discarded after it;
/// a failure is told behind what failed.
pub proof fn preparation_refusal_tells_the_step(
    states: Seq<RuntimePreparation>,
    events: Seq<PrepareEvent>,
    refusal: ServiceError,
)
    requires
        is_preparation(states, events),
        states.last() == (RuntimePreparation::Finished { result: Err(refusal) }),
    ensures
        ({
            let failing = if events.len() == 9 {
                7int
            } else {
                events.len() - 1
            };
            match events[failing] {
                PrepareEvent::Rejected(error) => refusal == error && (failing == 0 || failing == 3
                    || failing == 5 || failing == 6 || failing == 7),
                PrepareEvent::Failed(text) => {
                    &&& refusal.code == ServiceErrorCode::InvalidRuntimeAsset
                    &&& {
                        ||| failing == 1 && refusal.message@
                            == "failed to secure owner state root: "@ + text@
                        ||| failing == 2 && refusal.message@
                            == "failed to persist owner identity: "@ + text@
                        ||| failing == 4 && refusal.message@
                            == "failed to create owner log directory: "@ + text@
                    }
                },
                _ => false,
            }
        }),
{
    let end = events.len() as int;
    assert(end > 0);
    preparation_is_at(states, events, end - 1);
    let _ = events[end - 1];
    if states[end - 1] is DiscardRejected {
        preparation_is_at(states, events, end - 2);
        let _ = events[end - 2];
    }
}

} // verus!
