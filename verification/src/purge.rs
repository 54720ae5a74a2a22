//! The purge of the state that the Windows service keeps below `ProgramData`: only
//! this service's own directories go, and only where they are what they seem.
use crate::native::file_attribute_reparse_point;
use crate::paths::{file_name_of, parent_of, PathPartView, ServicePath};
use crate::text::{joined, same_text, views};
use vstd::prelude::*;
use vstd::string::*;

verus! {

/// The directories below `ProgramData` that are this service's to remove: the one
/// that is named as the service is.
pub open spec fn owned_directories(service_slug: Seq<char>) -> Seq<Seq<char>> {
    seq![service_slug]
}

/// The directories below `ProgramData` that are this service's to remove.
pub fn owned_windows_state_directories(service_slug: &str) -> (owned: Vec<String>)
    ensures
        views(owned@) == owned_directories(service_slug@),
{
    let owned: Vec<String> = vec![service_slug.to_owned()];
    assert(views(owned@) =~= owned_directories(service_slug@));
    owned
}

/// Where `ProgramData` is, where Windows does not tell.
pub const DEFAULT_PROGRAM_DATA: &'static str = "C:\\ProgramData";

/// What stands where the state of the service would.
#[derive(Clone, Copy, Debug, PartialEq, Eq, Structural)]
pub enum PurgeTarget {
    Missing,
    Directory,
}

/// What is to be purged, and how messages show it.
#[derive(Debug)]
pub struct PurgeRequest {
    pub program_data: ServicePath,
    pub target: ServicePath,
    pub expected_name: String,
    pub program_data_shown: String,
    pub target_shown: String,
}

/// The validation of what is to be purged.
#[derive(Debug)]
pub enum PurgeCheck {
    Inspect,
    ResolveRoot,
    ResolveTarget { root: ServicePath },
    Finished { result: Result<PurgeTarget, String> },
}

/// How a step of the validation ended. A failure carries the text of its error.
#[derive(Debug)]
pub enum PurgeEvent {
    Found { is_dir: bool, attributes: u32 },
    NotFound,
    Resolved { path: ServicePath, shown: String },
    Failed(String),
}

/// Whether a path is the entry `name` of `root`.
pub open spec fn is_entry_of(
    root: Seq<PathPartView>,
    path: Seq<PathPartView>,
    name: Seq<char>,
) -> bool {
    parent_of(path) == Some(root) && file_name_of(path) == Some(name)
}

fn is_entry(root: &ServicePath, path: &ServicePath, name: &str) -> (is_one: bool)
    ensures
        is_one == is_entry_of(root@, path@, name@),
{
    let below: bool = match path.parent() {
        Some(parent) => parent.same(root),
        None => false,
    };
    let named: bool = match path.file_name() {
        Some(found) => same_text(found.as_str(), name),
        None => false,
    };
    below && named
}

/// Whether a validation has ended with this text.
pub open spec fn purge_refused(next: PurgeCheck, message: Seq<char>) -> bool {
    next matches PurgeCheck::Finished { result: Err(text) } && text@ == message
}

/// Begins to validate what is to be purged: it has to be the entry with the
/// expected name of `ProgramData`.
pub fn begin_purge_check(request: &PurgeRequest) -> (first: PurgeCheck)
    ensures
        if is_entry_of(request.program_data@, request.target@, request.expected_name@) {
            first is Inspect
        } else {
            purge_refused(
                first,
                "refusing to purge a non-service ProgramData path: "@ + request.target_shown@,
            )
        },
        check_begins(*request, first),
{
    if is_entry(&request.program_data, &request.target, request.expected_name.as_str()) {
        PurgeCheck::Inspect
    } else {
        PurgeCheck::Finished {
            result: Err(
                joined(
                    "refusing to purge a non-service ProgramData path: ",
                    request.target_shown.as_str(),
                ),
            ),
        }
    }
}

/// Whether an event can end a step of the validation.
pub open spec fn purge_event_fits(pending: PurgeCheck, event: PurgeEvent) -> bool {
    match pending {
        PurgeCheck::Inspect => event is Found || event is NotFound || event is Failed,
        PurgeCheck::Finished { .. } => false,
        _ => event is Resolved || event is Failed,
    }
}

/// What follows when the pending step of the validation ends. What is purged is a
/// directory and no reparse point, and resolves to the entry with the expected
/// name of what `ProgramData` resolves to.
pub open spec fn purge_follows(
    request: PurgeRequest,
    pending: PurgeCheck,
    event: PurgeEvent,
    next: PurgeCheck,
) -> bool {
    match (pending, event) {
        (PurgeCheck::Inspect, PurgeEvent::NotFound) => next == (PurgeCheck::Finished {
            result: Ok(PurgeTarget::Missing),
        }),
        (PurgeCheck::Inspect, PurgeEvent::Failed(error)) => purge_refused(
            next,
            "failed to inspect "@ + request.target_shown@ + ": "@ + error@,
        ),
        (PurgeCheck::Inspect, PurgeEvent::Found { is_dir, attributes }) => if is_dir && attributes
            & 0x400 == 0 {
            next is ResolveRoot
        } else {
            purge_refused(
                next,
                "refusing to purge a non-directory or reparse-point service root: "@
                    + request.target_shown@,
            )
        },
        (PurgeCheck::ResolveRoot, PurgeEvent::Failed(error)) => purge_refused(
            next,
            "failed to resolve ProgramData root "@ + request.program_data_shown@ + ": "@ + error@,
        ),
        (PurgeCheck::ResolveRoot, PurgeEvent::Resolved { path, .. }) => next == (
        PurgeCheck::ResolveTarget { root: path }),
        (PurgeCheck::ResolveTarget { .. }, PurgeEvent::Failed(error)) => purge_refused(
            next,
            "failed to resolve service root "@ + request.target_shown@ + ": "@ + error@,
        ),
        (PurgeCheck::ResolveTarget { root }, PurgeEvent::Resolved { path, shown }) => if is_entry_of(
            root@,
            path@,
            request.expected_name@,
        ) {
            next == (PurgeCheck::Finished { result: Ok(PurgeTarget::Directory) })
        } else {
            purge_refused(next, "resolved service root escaped ProgramData: "@ + shown@)
        },
        _ => false,
    }
}

fn refuse_purge(message: String) -> (next: PurgeCheck)
    ensures
        purge_refused(next, message@),
{
    PurgeCheck::Finished { result: Err(message) }
}

/// Decides what follows when the pending step of validating what is to be purged
/// has ended.
pub fn validate_purge_target(
    request: &PurgeRequest,
    pending: PurgeCheck,
    event: PurgeEvent,
) -> (next: PurgeCheck)
    requires
        purge_event_fits(pending, event),
    ensures
        purge_follows(*request, pending, event, next),
{
    match pending {
        PurgeCheck::Inspect => match event {
            PurgeEvent::Found { is_dir, attributes } => {
                if !is_dir || attributes & file_attribute_reparse_point() != 0 {
                    refuse_purge(
                        joined(
                            "refusing to purge a non-directory or reparse-point service root: ",
                            request.target_shown.as_str(),
                        ),
                    )
                } else {
                    PurgeCheck::ResolveRoot
                }
            },
            PurgeEvent::Failed(error) => refuse_purge(
                joined("failed to inspect ", request.target_shown.as_str()).concat(": ").concat(
                    error.as_str(),
                ),
            ),
            _ => PurgeCheck::Finished { result: Ok(PurgeTarget::Missing) },
        },
        PurgeCheck::ResolveRoot => match event {
            PurgeEvent::Resolved { path, .. } => PurgeCheck::ResolveTarget { root: path },
            PurgeEvent::Failed(error) => refuse_purge(
                joined(
                    "failed to resolve ProgramData root ",
                    request.program_data_shown.as_str(),
                ).concat(": ").concat(error.as_str()),
            ),
            _ => PurgeCheck::ResolveRoot,
        },
        PurgeCheck::ResolveTarget { root } => match event {
            PurgeEvent::Resolved { path, shown } => {
                if is_entry(&root, &path, request.expected_name.as_str()) {
                    PurgeCheck::Finished { result: Ok(PurgeTarget::Directory) }
                } else {
                    refuse_purge(
                        joined("resolved service root escaped ProgramData: ", shown.as_str()),
                    )
                }
            },
            PurgeEvent::Failed(error) => refuse_purge(
                joined("failed to resolve service root ", request.target_shown.as_str()).concat(
                    ": ",
                ).concat(error.as_str()),
            ),
            _ => PurgeCheck::ResolveTarget { root },
        },
        PurgeCheck::Finished { result } => PurgeCheck::Finished { result },
    }
}

/// Where `ProgramData` is: where Windows tells, else at its usual place.
pub fn program_data_root(told: Option<String>) -> (root: String)
    ensures
        root@ == (match told {
            Some(path) => path@,
            None => DEFAULT_PROGRAM_DATA@,
        }),
        root@ == program_data_of(told),
{
    match told {
        Some(path) => path,
        None => DEFAULT_PROGRAM_DATA.to_owned(),
    }
}

/// What the purge does next with the directory at `index`.
#[derive(Debug)]
pub enum PurgePhase {
    Validate,
    Remove,
    Finished { result: Result<(), String> },
}

/// The purge: the directory it has come to, and the positions of those that it
/// has removed.
#[derive(Debug)]
pub struct StatePurge {
    pub index: usize,
    pub removed: Vec<usize>,
    pub phase: PurgePhase,
}

/// How a step of the purge ended.
#[derive(Debug)]
pub enum PurgeOutcome {
    Validated(Result<PurgeTarget, String>),
    Removed(Result<(), String>),
}

/// Whether an outcome can end a step of the purge.
pub open spec fn purge_outcome_fits(phase: PurgePhase, outcome: PurgeOutcome) -> bool {
    match phase {
        PurgePhase::Validate => outcome is Validated,
        PurgePhase::Remove => outcome is Removed,
        PurgePhase::Finished { .. } => false,
    }
}

impl StatePurge {
    /// What holds at every step of a purge of `count` owned directories: it removes
    /// each of them at most once.
    pub open spec fn well_formed(&self, count: nat) -> bool {
        &&& self.index <= count
        &&& !(self.phase is Finished) ==> self.index < count
        &&& forall|i: int| 0 <= i < self.removed@.len() ==> #[trigger] self.removed@[i] < self.index
        &&& self.removed@.no_duplicates()
    }
}

/// Whether a purge of `count` directories has gone on to the next one, or has come to
/// its end.
pub open spec fn purge_moves_on(
    count: nat,
    before: StatePurge,
    removed: Seq<usize>,
    after: StatePurge,
) -> bool {
    &&& after.index == before.index + 1
    &&& after.removed@ == removed
    &&& after.phase == (if before.index + 1 < count {
        PurgePhase::Validate
    } else {
        PurgePhase::Finished { result: Ok(()) }
    })
}

/// Whether a purge has failed at a directory.
pub open spec fn purge_failed(before: StatePurge, message: Seq<char>, after: StatePurge) -> bool {
    &&& after.index == before.index
    &&& after.removed == before.removed
    &&& after.phase matches PurgePhase::Finished { result: Err(text) } && text@ == message
}

/// What follows when the pending step of the purge of `count` directories ends.
/// `shown` is the directory, as messages show it.
pub open spec fn state_purge_follows(
    count: nat,
    shown: Seq<char>,
    before: StatePurge,
    outcome: PurgeOutcome,
    after: StatePurge,
) -> bool {
    match outcome {
        PurgeOutcome::Validated(Err(error)) => purge_failed(before, error@, after),
        PurgeOutcome::Validated(Ok(PurgeTarget::Missing)) => purge_moves_on(
            count,
            before,
            before.removed@,
            after,
        ),
        PurgeOutcome::Validated(Ok(PurgeTarget::Directory)) => after == StatePurge {
            phase: PurgePhase::Remove,
            ..before
        },
        PurgeOutcome::Removed(Err(error)) => purge_failed(
            before,
            "failed to remove service state "@ + shown + ": "@ + error@,
            after,
        ),
        PurgeOutcome::Removed(Ok(())) => purge_moves_on(
            count,
            before,
            before.removed@.push(before.index),
            after,
        ),
    }
}

/// Begins to purge the state of the service: where there is nothing to purge, the
/// purge has ended.
pub fn begin_state_purge(owned: &Vec<String>) -> (purge: StatePurge)
    ensures
        purge.index == 0,
        purge.removed@.len() == 0,
        purge.phase == (if owned@.len() > 0 {
            PurgePhase::Validate
        } else {
            PurgePhase::Finished { result: Ok(()) }
        }),
        purge.well_formed(owned@.len()),
        purge_begins(owned@.len(), purge),
{
    let phase: PurgePhase = if owned.len() > 0 {
        PurgePhase::Validate
    } else {
        PurgePhase::Finished { result: Ok(()) }
    };
    StatePurge { index: 0, removed: Vec::new(), phase }
}

/// Decides what follows when the pending step of the purge has ended.
pub fn purge_windows_service_state(
    owned: &Vec<String>,
    shown: &str,
    before: StatePurge,
    outcome: PurgeOutcome,
) -> (after: StatePurge)
    requires
        before.well_formed(owned@.len()),
        purge_outcome_fits(before.phase, outcome),
    ensures
        state_purge_follows(owned@.len(), shown@, before, outcome, after),
        after.well_formed(owned@.len()),
{
    let count: usize = owned.len();
    let mut after: StatePurge = before;
    match outcome {
        PurgeOutcome::Validated(Err(error)) => {
            after.phase = PurgePhase::Finished { result: Err(error) };
            return after;
        },
        PurgeOutcome::Validated(Ok(PurgeTarget::Directory)) => {
            after.phase = PurgePhase::Remove;
            return after;
        },
        PurgeOutcome::Removed(Err(error)) => {
            after.phase = PurgePhase::Finished {
                result: Err(
                    joined("failed to remove service state ", shown).concat(": ").concat(
                        error.as_str(),
                    ),
                ),
            };
            return after;
        },
        PurgeOutcome::Removed(Ok(())) => {
            after.removed.push(after.index);
        },
        PurgeOutcome::Validated(Ok(PurgeTarget::Missing)) => {},
    }
    after.index = after.index + 1;
    after.phase = if after.index < count {
        PurgePhase::Validate
    } else {
        PurgePhase::Finished { result: Ok(()) }
    };
    after
}

/// A directory counts as removed only where it was validated to be one of the
/// service's own and its removal has succeeded.
pub proof fn only_validated_directories_are_removed(
    count: nat,
    shown: Seq<char>,
    before: StatePurge,
    outcome: PurgeOutcome,
    after: StatePurge,
)
    requires
        purge_outcome_fits(before.phase, outcome),
        state_purge_follows(count, shown, before, outcome, after),
    ensures
        after.phase is Remove ==> outcome == PurgeOutcome::Validated(Ok(PurgeTarget::Directory)),
        after.removed@ != before.removed@ ==> before.phase is Remove && (outcome matches
            PurgeOutcome::Removed(removal) && removal is Ok),
{
}

/// The state of an older service, whatever its name, is not this service's to
/// remove.
pub proof fn legacy_state_is_not_owned(service_slug: Seq<char>, legacy_slug: Seq<char>)
    requires
        legacy_slug != service_slug,
    ensures
        !owned_directories(service_slug).contains(legacy_slug),
{
}

/// Whether `stages` are those of one validation of `request`, `events` being how
/// its steps ended.
pub open spec fn is_purge_check(
    request: PurgeRequest,
    stages: Seq<PurgeCheck>,
    events: Seq<PurgeEvent>,
) -> bool {
    &&& stages.len() == events.len() + 1
    &&& is_entry_of(request.program_data@, request.target@, request.expected_name@)
    &&& stages[0] is Inspect
    &&& forall|i: int|
        #![trigger events[i]]
        0 <= i < events.len() ==> {
            &&& purge_event_fits(stages[i], events[i])
            &&& purge_follows(request, stages[i], events[i], stages[i + 1])
        }
}

/// A purge cannot be led elsewhere: what is purged is the expected entry of
/// `ProgramData`, a directory and no reparse point, and is still that entry once
/// all links in both paths are resolved.
pub proof fn purge_stays_in_program_data(
    request: PurgeRequest,
    stages: Seq<PurgeCheck>,
    events: Seq<PurgeEvent>,
)
    requires
        is_purge_check(request, stages, events),
        stages.last() == (PurgeCheck::Finished { result: Ok(PurgeTarget::Directory) }),
    ensures
        is_entry_of(request.program_data@, request.target@, request.expected_name@),
        events.len() == 3,
        events[0] matches PurgeEvent::Found { is_dir, attributes } && is_dir && attributes & 0x400
            == 0,
        events[1] matches PurgeEvent::Resolved { path: root, .. } && events[2] matches
            PurgeEvent::Resolved { path: target, .. } && is_entry_of(
            root@,
            target@,
            request.expected_name@,
        ),
{
    assert(events.len() > 0);
    let _ = events[0];
    if events.len() > 1 {
        let _ = events[1];
    }
    if events.len() > 2 {
        let _ = events[2];
    }
    if events.len() > 3 {
        let _ = events[3];
    }
}

/// This service owns one directory, and that is named as the service is.
pub proof fn service_owns_its_own_directory(service_slug: Seq<char>, name: Seq<char>)
    ensures
        owned_directories(service_slug).contains(name) <==> name == service_slug,
        owned_directories(service_slug).len() == 1,
{
    assert(owned_directories(service_slug)[0] == service_slug);
}

/// Where `ProgramData` is.
pub open spec fn program_data_of(told: Option<String>) -> Seq<char> {
    match told {
        Some(path) => path@,
        None => DEFAULT_PROGRAM_DATA@,
    }
}

/// `ProgramData` is where Windows tells, whatever that is, and on the drive `C` only
/// where it does not tell.
pub proof fn program_data_is_where_windows_tells(told: String)
    ensures
        program_data_of(Some(told)) == told@,
        program_data_of(None) == "C:\\ProgramData"@,
{
}

/// A path is an entry of a directory exactly where it is the directory with the name
/// behind it.
pub proof fn entries_lie_right_below(
    root: Seq<PathPartView>,
    path: Seq<PathPartView>,
    name: Seq<char>,
)
    ensures
        is_entry_of(root, path, name) <==> path == root.push(PathPartView::Normal(name)),
{
    if is_entry_of(root, path, name) {
        assert(path =~= path.drop_last().push(path.last()));
    }
    let entry = root.push(PathPartView::Normal(name));
    assert(entry.drop_last() =~= root);
}

/// How the validation of what is to be purged begins.
pub open spec fn check_begins(request: PurgeRequest, first: PurgeCheck) -> bool {
    if is_entry_of(request.program_data@, request.target@, request.expected_name@) {
        first is Inspect
    } else {
        purge_refused(
            first,
            "refusing to purge a non-service ProgramData path: "@ + request.target_shown@,
        )
    }
}

/// What lies anywhere but right below `ProgramData`, or has another name, is refused
/// before it is looked at.
pub proof fn strange_targets_are_refused_unseen(request: PurgeRequest, first: PurgeCheck)
    requires
        check_begins(request, first),
    ensures
        request.target@ == request.program_data@.push(
            PathPartView::Normal(request.expected_name@),
        ) <==> first is Inspect,
        !(first is Inspect) ==> (first matches PurgeCheck::Finished { result: Err(text) } && text@
            == "refusing to purge a non-service ProgramData path: "@ + request.target_shown@),
{
    entries_lie_right_below(request.program_data@, request.target@, request.expected_name@);
}

/// What a validation comes to. Nothing there is nothing to purge. A directory that is no
/// reparse point, and that resolves to the entry of what `ProgramData` resolves to, is
/// purged. Everything else is refused, and told.
pub proof fn validation_comes_to_what_was_found(
    request: PurgeRequest,
    stages: Seq<PurgeCheck>,
    events: Seq<PurgeEvent>,
    result: Result<PurgeTarget, String>,
)
    requires
        is_purge_check(request, stages, events),
        stages.last() == (PurgeCheck::Finished { result }),
    ensures
        ({
            let told = |message: Seq<char>| result matches Err(text) && text@ == message;
            &&& 0 < events.len() <= 3
            &&& match events.last() {
                PurgeEvent::NotFound => events.len() == 1 && result == Ok::<PurgeTarget, String>(
                    PurgeTarget::Missing,
                ),
                PurgeEvent::Found { is_dir, attributes } => {
                    &&& events.len() == 1
                    &&& !is_dir || (attributes as int / 1024) % 2 == 1
                    &&& told(
                        "refusing to purge a non-directory or reparse-point service root: "@
                            + request.target_shown@,
                    )
                },
                PurgeEvent::Failed(error) => told(
                    if events.len() == 1 {
                        "failed to inspect "@ + request.target_shown@ + ": "@ + error@
                    } else if events.len() == 2 {
                        "failed to resolve ProgramData root "@ + request.program_data_shown@
                            + ": "@ + error@
                    } else {
                        "failed to resolve service root "@ + request.target_shown@ + ": "@ + error@
                    },
                ),
                PurgeEvent::Resolved { path, shown } => {
                    &&& events.len() == 3
                    &&& events[0] matches PurgeEvent::Found { is_dir, attributes } && is_dir && (
                    attributes as int / 1024) % 2 == 0
                    &&& events[1] matches PurgeEvent::Resolved { path: root, .. } && if path@
                        == root@.push(PathPartView::Normal(request.expected_name@)) {
                        result == Ok::<PurgeTarget, String>(PurgeTarget::Directory)
                    } else {
                        told("resolved service root escaped ProgramData: "@ + shown@)
                    }
                },
            }
        }),
{
    assert(events.len() > 0);
    let _ = events[0];
    if let PurgeEvent::Found { attributes, .. } = events[0] {
        assert((attributes & 0x400 == 0) == ((attributes / 1024u32) % 2 == 0)) by (bit_vector);
    }
    if events.len() > 1 {
        let _ = events[1];
    }
    if events.len() > 2 {
        let _ = events[2];
        if let PurgeEvent::Resolved { path: root, .. } = events[1] {
            if let PurgeEvent::Resolved { path, .. } = events[2] {
                entries_lie_right_below(root@, path@, request.expected_name@);
            }
        }
    }
    if events.len() > 3 {
        let _ = events[3];
    }
}

/// Whether `states` are those of one purge of `count` directories, shown as `shown`, and
/// `outcomes` how its steps ended.
pub open spec fn is_state_purge(
    count: nat,
    shown: Seq<Seq<char>>,
    states: Seq<StatePurge>,
    outcomes: Seq<PurgeOutcome>,
) -> bool {
    &&& states.len() == outcomes.len() + 1
    &&& states[0].index == 0
    &&& states[0].removed@.len() == 0
    &&& states[0].phase == (if count > 0 {
        PurgePhase::Validate
    } else {
        PurgePhase::Finished { result: Ok(()) }
    })
    &&& forall|i: int|
        #![trigger outcomes[i]]
        0 <= i < outcomes.len() ==> {
            &&& purge_outcome_fits(states[i].phase, outcomes[i])
            &&& state_purge_follows(
                count,
                shown[states[i].index as int],
                states[i],
                outcomes[i],
                states[i + 1],
            )
        }
}

/// A purge comes to the directories one after the other: the next one where the last was
/// missing or has been removed. A directory that was found is removed before it goes on.
/// So at every time the removed ones are just those that were found among the ones that
/// it has passed.
pub proof fn purge_removes_what_it_found(
    count: nat,
    shown: Seq<Seq<char>>,
    states: Seq<StatePurge>,
    outcomes: Seq<PurgeOutcome>,
    at: int,
    position: usize,
)
    requires
        is_state_purge(count, shown, states, outcomes),
        0 <= at < states.len(),
    ensures
        states[at].index <= count,
        !(states[at].phase is Finished) ==> states[at].index < count,
        states[at].phase is Remove <==> at > 0 && outcomes[at - 1] == PurgeOutcome::Validated(
            Ok(PurgeTarget::Directory),
        ),
        states[at].removed@.contains(position) <==> position < states[at].index && exists|k: int|
            0 <= k < at && #[trigger] outcomes[k] == PurgeOutcome::Validated(
                Ok(PurgeTarget::Directory),
            ) && states[k].index == position,
    decreases at,
{
    if at > 0 {
        purge_removes_what_it_found(count, shown, states, outcomes, at - 1, position);
        let before = states[at - 1];
        let after = states[at];
        let outcome = outcomes[at - 1];
        index_only_grows(count, shown, states, outcomes, at - 1);
        if outcome is Removed {
            assert(outcomes[at - 2] == PurgeOutcome::Validated(Ok(PurgeTarget::Directory)));
            assert(states[at - 2].index == before.index);
            if after.index == before.index + 1 {
                let held = before.removed@;
                assert(after.removed@ == held.push(before.index));
                assert(held.push(before.index)[held.len() as int] == before.index);
                if held.contains(position) {
                    let i = choose|i: int| 0 <= i < held.len() && held[i] == position;
                    assert(held.push(before.index)[i] == position);
                }
                if position == before.index {
                    assert(0 <= at - 2 < at && outcomes[at - 2] == PurgeOutcome::Validated(
                        Ok(PurgeTarget::Directory),
                    ) && states[at - 2].index == position);
                    assert(after.removed@.contains(position));
                } else {
                    assert(after.removed@.contains(position) ==> held.contains(position));
                }
            }
        } else if outcome == PurgeOutcome::Validated(Ok(PurgeTarget::Missing)) {
            passed_directory_was_missing(count, shown, states, outcomes, at - 1, at - 1);
            if exists|k: int|
                0 <= k < at && #[trigger] outcomes[k] == PurgeOutcome::Validated(
                    Ok(PurgeTarget::Directory),
                ) && states[k].index == before.index {
                let k = choose|k: int|
                    0 <= k < at && #[trigger] outcomes[k] == PurgeOutcome::Validated(
                        Ok(PurgeTarget::Directory),
                    ) && states[k].index == before.index;
                assert(k < at - 1);
                passed_directory_was_missing(count, shown, states, outcomes, k, at - 1);
            }
        }
    }
}

/// A purge never goes back.
proof fn index_only_grows(
    count: nat,
    shown: Seq<Seq<char>>,
    states: Seq<StatePurge>,
    outcomes: Seq<PurgeOutcome>,
    at: int,
)
    requires
        is_state_purge(count, shown, states, outcomes),
        0 <= at < outcomes.len(),
    ensures
        states[at].index <= states[at + 1].index,
        outcomes[at] is Removed ==> at > 0 && outcomes[at - 1] == PurgeOutcome::Validated(
            Ok(PurgeTarget::Directory),
        ) && states[at - 1].index == states[at].index,
{
    let _ = outcomes[at];
    if at > 0 {
        let _ = outcomes[at - 1];
    }
}

/// What was found at a directory decides whether the purge has passed it when it
/// validates again.
proof fn passed_directory_was_missing(
    count: nat,
    shown: Seq<Seq<char>>,
    states: Seq<StatePurge>,
    outcomes: Seq<PurgeOutcome>,
    k: int,
    at: int,
)
    requires
        is_state_purge(count, shown, states, outcomes),
        0 <= k <= at < outcomes.len(),
        outcomes[k] is Validated,
        outcomes[at] is Validated,
    ensures
        states[k].index <= states[at].index,
        k < at ==> states[k].index < states[at].index,
    decreases at - k,
{
    if k < at {
        let _ = outcomes[k];
        let _ = outcomes[k + 1];
        if outcomes[k + 1] is Validated {
            passed_directory_was_missing(count, shown, states, outcomes, k + 1, at);
        } else {
            let _ = outcomes[k + 2];
            passed_directory_was_missing(count, shown, states, outcomes, k + 2, at);
        }
    }
}

/// A purge fails where a validation or a removal does, with what that tells, and succeeds
/// once all directories are passed.
pub proof fn purge_ends_at_a_failure_or_with_all(
    count: nat,
    shown: Seq<Seq<char>>,
    states: Seq<StatePurge>,
    outcomes: Seq<PurgeOutcome>,
    result: Result<(), String>,
)
    requires
        is_state_purge(count, shown, states, outcomes),
        outcomes.len() > 0,
        states.last().phase == (PurgePhase::Finished { result }),
    ensures
        result is Ok ==> states.last().index == count,
        result is Err ==> states.last().index < count,
        match outcomes.last() {
            PurgeOutcome::Validated(Err(error)) => result matches Err(text) && text@ == error@,
            PurgeOutcome::Removed(Err(error)) => result matches Err(text) && text@
                == "failed to remove service state "@ + shown[states.last().index as int] + ": "@
                + error@,
            _ => result is Ok,
        },
{
    let last = outcomes.len() - 1;
    purge_removes_what_it_found(count, shown, states, outcomes, last, 0);
    let _ = outcomes[last];
}

/// Whether a purge of `count` directories begins like this.
pub open spec fn purge_begins(count: nat, purge: StatePurge) -> bool {
    is_state_purge(count, Seq::empty(), seq![purge], Seq::empty())
}

/// A purge begins with the first directory, nothing being removed yet, and has ended at
/// once where there is none.
pub proof fn purge_begins_with_the_first(count: nat, purge: StatePurge)
    requires
        purge_begins(count, purge),
    ensures
        purge.index == 0,
        purge.removed@.len() == 0,
        count > 0 ==> purge.phase is Validate,
        count == 0 ==> (purge.phase matches PurgePhase::Finished { result } && result is Ok),
{
    assert(seq![purge][0] == purge);
}

} // verus!
