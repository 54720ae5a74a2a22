//! The steps of a takeover, taken apart: stopping the previous core, starting
//! and committing the new one, and rolling all of it back. What these leave of
//! the runtime that was prepared for the new owner is decided here too.
use crate::proxy::{append_failure, with_failure};
use crate::runtime::{drop_action_of, DropAction, PreparedRuntime, PreparedRuntimeState};
use crate::session::ActiveOwnerState;
use crate::text::{join_texts, joined, joined_with, views};
use vstd::prelude::*;
use vstd::string::*;

verus! {

/// What a takeover works on: the owner that is active before it, and the runtime
/// that was prepared for the new one, as long as that is neither committed nor
/// discarded.
#[derive(Debug)]
pub struct StartOwnerTransition {
    pub previous_owner: Option<ActiveOwnerState>,
    pub prepared_runtime: Option<PreparedRuntime>,
}

/// The stop of the previous core.
#[derive(Debug)]
pub enum PreviousStop {
    StopCore,
    PersistStopped { owner_key: String },
    ClearActiveOwner,
    Finished { result: Result<(), String> },
}

/// What follows when the pending step of stopping the previous core ends: the
/// core is stopped, the previous owner, if there is one, is recorded as stopped,
/// and no owner is recorded as active.
pub open spec fn previous_stop_follows(
    transition: StartOwnerTransition,
    pending: PreviousStop,
    outcome: Result<(), String>,
    next: PreviousStop,
) -> bool {
    match (pending, outcome) {
        (PreviousStop::StopCore, Err(error)) => next == (PreviousStop::Finished {
            result: Err(error),
        }),
        (PreviousStop::StopCore, Ok(())) => match transition.previous_owner {
            Some(previous) => next matches PreviousStop::PersistStopped { owner_key } && owner_key@
                == previous.owner_key@,
            None => next is ClearActiveOwner,
        },
        (PreviousStop::PersistStopped { .. }, Err(error)) => next matches PreviousStop::Finished {
            result: Err(message),
        } && message@ == "failed to persist the previous owner stopped state: "@ + error@,
        (PreviousStop::PersistStopped { .. }, Ok(())) => next is ClearActiveOwner,
        (PreviousStop::ClearActiveOwner, Err(error)) => next matches PreviousStop::Finished {
            result: Err(message),
        } && message@ == "failed to clear the previous active owner: "@ + error@,
        (PreviousStop::ClearActiveOwner, Ok(())) => next == (PreviousStop::Finished {
            result: Ok(()),
        }),
        (PreviousStop::Finished { .. }, _) => false,
    }
}

/// The start of the new core.
#[derive(Debug)]
pub enum NewStart {
    StartCore,
    StopRejected { error: String },
    PersistStopped { error: String },
    DiscardRuntime { error: String, runtime: PreparedRuntime },
    Finished { result: Result<(), String> },
}

/// The commit of the new owner.
#[derive(Debug)]
pub enum OwnerCommit {
    PersistStarted,
    CommitSession,
    RollBackOwner { error: String },
    DiscardRuntime { error: String, runtime: PreparedRuntime },
    Finished { result: Result<ActiveOwnerState, String> },
}

/// How a step of a commit ended.
#[derive(Debug)]
pub enum CommitEvent {
    Done,
    Committed(ActiveOwnerState),
    Failed(String),
}

/// The rollback of a new owner whose proxy could not be applied.
#[derive(Debug)]
pub enum NewOwnerRollback {
    RestoreDirect,
    RollBackOwner { proxy: Result<(), String> },
    DiscardRuntime { proxy: Result<(), String>, runtime: PreparedRuntime },
    Finished { result: Result<(), String>, fatal: bool },
}

/// The rollback of an owner whose core was started.
#[derive(Debug)]
pub enum StartedRollback {
    StopCore,
    PersistStopped,
    ClearActiveOwner { persisted: Result<(), String> },
    Finished { result: Result<(), String>, fatal: bool },
}

/// A runtime that is about to be discarded, no core running from it any more.
pub open spec fn to_discard(runtime: PreparedRuntime) -> PreparedRuntime {
    PreparedRuntime { state: PreparedRuntimeState::Unused, ..runtime }
}

/// What follows when the pending step of starting the new core ends. A core that
/// could not be started is stopped; only once it has stopped, the owner is
/// recorded as stopped and the runtime is discarded.
pub open spec fn start_follows(
    before: StartOwnerTransition,
    pending: NewStart,
    outcome: Result<(), String>,
    after: StartOwnerTransition,
    next: NewStart,
) -> bool {
    &&& after.previous_owner == before.previous_owner
    &&& after.prepared_runtime == (if pending is PersistStopped {
        None
    } else {
        before.prepared_runtime
    })
    &&& match (pending, outcome) {
        (NewStart::StartCore, Ok(())) => next == (NewStart::Finished { result: Ok(()) }),
        (NewStart::StartCore, Err(error)) => next == (NewStart::StopRejected { error }),
        (NewStart::StopRejected { error }, Err(stop_error)) => next matches NewStart::Finished {
            result: Err(message),
        } && message@ == error@ + "; failed to confirm termination of the rejected core: "@
            + stop_error@,
        (NewStart::StopRejected { error }, Ok(())) => next == (NewStart::PersistStopped { error }),
        (NewStart::PersistStopped { error }, _) => match before.prepared_runtime {
            Some(runtime) => next == (NewStart::DiscardRuntime {
                error,
                runtime: to_discard(runtime),
            }),
            None => next == (NewStart::Finished { result: Err(error) }),
        },
        (NewStart::DiscardRuntime { error, .. }, _) => next matches NewStart::Finished {
            result: Err(message),
        } && message@ == with_failure(
            error@,
            "; failed to discard rejected runtime generation: "@,
            outcome,
        ),
        (NewStart::Finished { .. }, _) => false,
    }
}

/// Whether an event can end a step of a commit.
pub open spec fn commit_event_fits(pending: OwnerCommit, event: CommitEvent) -> bool {
    match pending {
        OwnerCommit::CommitSession => event is Committed || event is Failed,
        OwnerCommit::Finished { .. } => false,
        _ => event is Done || event is Failed,
    }
}

/// How a step ended that gives nothing back.
pub open spec fn outcome_of(event: CommitEvent) -> Result<(), String> {
    match event {
        CommitEvent::Failed(error) => Err(error),
        _ => Ok(()),
    }
}

/// What follows when the pending step of undoing a commit that failed with
/// `error` ends: the owner is rolled back, and only where that has succeeded,
/// which includes that the core has stopped, the runtime is discarded.
pub open spec fn commit_failure_follows(
    before: StartOwnerTransition,
    pending: OwnerCommit,
    outcome: Result<(), String>,
    after: StartOwnerTransition,
    next: OwnerCommit,
) -> bool {
    &&& after.previous_owner == before.previous_owner
    &&& match (pending, outcome) {
        (OwnerCommit::RollBackOwner { error }, Err(rollback_error)) => {
            &&& after.prepared_runtime == before.prepared_runtime
            &&& next matches OwnerCommit::Finished { result: Err(message) } && message@ == error@
                + "; failed to roll back uncommitted owner core: "@ + rollback_error@
        },
        (OwnerCommit::RollBackOwner { error }, Ok(())) => {
            &&& after.prepared_runtime is None
            &&& match before.prepared_runtime {
                Some(runtime) => next == (OwnerCommit::DiscardRuntime {
                    error,
                    runtime: to_discard(runtime),
                }),
                None => next == (OwnerCommit::Finished { result: Err(error) }),
            }
        },
        (OwnerCommit::DiscardRuntime { error, .. }, _) => {
            &&& after.prepared_runtime == before.prepared_runtime
            &&& next matches OwnerCommit::Finished { result: Err(message) } && message@
                == with_failure(
                error@,
                "; failed to discard uncommitted runtime generation: "@,
                outcome,
            )
        },
        _ => false,
    }
}

/// What follows when the pending step of committing the new owner ends.
pub open spec fn commit_follows(
    before: StartOwnerTransition,
    pending: OwnerCommit,
    event: CommitEvent,
    after: StartOwnerTransition,
    next: OwnerCommit,
) -> bool {
    match (pending, event) {
        (OwnerCommit::PersistStarted, CommitEvent::Failed(error)) => after == before && next == (
        OwnerCommit::RollBackOwner { error }),
        (OwnerCommit::PersistStarted, _) => after == before && next is CommitSession,
        (OwnerCommit::CommitSession, CommitEvent::Failed(error)) => after == before && next == (
        OwnerCommit::RollBackOwner { error }),
        (OwnerCommit::CommitSession, CommitEvent::Committed(active)) => after == before && next == (
        OwnerCommit::Finished { result: Ok(active) }),
        _ => commit_failure_follows(before, pending, outcome_of(event), after, next),
    }
}

/// The failures of a rollback, each behind what failed.
pub open spec fn rollback_failures(
    proxy: Result<(), String>,
    owner: Result<(), String>,
    runtime: Result<(), String>,
) -> Seq<Seq<char>> {
    let first = match proxy {
        Err(error) => seq!["proxy cleanup failed: "@ + error@],
        Ok(()) => Seq::empty(),
    };
    let second = match owner {
        Err(error) => first.push("owner rollback failed: "@ + error@),
        Ok(()) => first,
    };
    match runtime {
        Err(error) => second.push("runtime cleanup failed: "@ + error@),
        Ok(()) => second,
    }
}

/// How a rollback ends: it succeeds where all three parts did; else the service
/// is fatally broken, and every part that failed is named.
pub open spec fn rollback_ends(
    proxy: Result<(), String>,
    owner: Result<(), String>,
    runtime: Result<(), String>,
    next: NewOwnerRollback,
) -> bool {
    &&& next matches NewOwnerRollback::Finished { result, fatal }
    &&& fatal == (result is Err)
    &&& result is Ok <==> proxy is Ok && owner is Ok && runtime is Ok
    &&& result matches Err(message) ==> message@ == joined_with(
        rollback_failures(proxy, owner, runtime),
        "; "@,
    )
}

/// Whether a rollback ended like this, the runtime having been lost before.
pub open spec fn rollback_ends_without_runtime(
    proxy: Result<(), String>,
    next: NewOwnerRollback,
) -> bool {
    exists|lost: String|
        lost@ == "prepared runtime disappeared during owner rollback"@ && #[trigger] rollback_ends(
            proxy,
            Ok(()),
            Err(lost),
            next,
        )
}

/// What follows when the pending step of rolling back the new owner ends. The
/// runtime is discarded only where the owner was rolled back.
pub open spec fn rollback_follows(
    before: StartOwnerTransition,
    pending: NewOwnerRollback,
    outcome: Result<(), String>,
    after: StartOwnerTransition,
    next: NewOwnerRollback,
) -> bool {
    &&& after.previous_owner == before.previous_owner
    &&& match pending {
        NewOwnerRollback::RestoreDirect => {
            &&& after.prepared_runtime == before.prepared_runtime
            &&& next == (NewOwnerRollback::RollBackOwner { proxy: outcome })
        },
        NewOwnerRollback::RollBackOwner { proxy } => if outcome is Ok {
            &&& after.prepared_runtime is None
            &&& match before.prepared_runtime {
                Some(runtime) => next == (NewOwnerRollback::DiscardRuntime {
                    proxy,
                    runtime: to_discard(runtime),
                }),
                None => rollback_ends_without_runtime(proxy, next),
            }
        } else {
            &&& after.prepared_runtime == before.prepared_runtime
            &&& rollback_ends(proxy, outcome, Ok(()), next)
        },
        NewOwnerRollback::DiscardRuntime { proxy, .. } => {
            &&& after.prepared_runtime == before.prepared_runtime
            &&& rollback_ends(proxy, Ok(()), outcome, next)
        },
        NewOwnerRollback::Finished { .. } => false,
    }
}

fn finish_rollback(
    proxy: Result<(), String>,
    owner: Result<(), String>,
    runtime: Result<(), String>,
) -> (next: NewOwnerRollback)
    ensures
        rollback_ends(proxy, owner, runtime, next),
{
    let mut failures: Vec<String> = Vec::new();
    assert(views(failures@) =~= Seq::empty());
    if let Err(error) = &proxy {
        failures.push(joined("proxy cleanup failed: ", error.as_str()));
        assert(views(failures@) =~= seq!["proxy cleanup failed: "@ + error@]);
    }
    let ghost first = views(failures@);
    if let Err(error) = &owner {
        failures.push(joined("owner rollback failed: ", error.as_str()));
        assert(views(failures@) =~= first.push("owner rollback failed: "@ + error@));
    }
    let ghost second = views(failures@);
    if let Err(error) = &runtime {
        failures.push(joined("runtime cleanup failed: ", error.as_str()));
        assert(views(failures@) =~= second.push("runtime cleanup failed: "@ + error@));
    }
    assert(views(failures@) == rollback_failures(proxy, owner, runtime));
    if failures.len() == 0 {
        return NewOwnerRollback::Finished { result: Ok(()), fatal: false };
    }
    NewOwnerRollback::Finished { result: Err(join_texts(&failures, "; ")), fatal: true }
}

impl StartOwnerTransition {
    /// Decides what follows when the pending step of stopping the previous core
    /// has ended.
    pub fn stop_previous_core(&self, pending: PreviousStop, outcome: Result<(), String>) -> (next:
        PreviousStop)
        requires
            !(pending is Finished),
        ensures
            previous_stop_follows(*self, pending, outcome, next),
    {
        match outcome {
            Err(error) => PreviousStop::Finished {
                result: Err(
                    match pending {
                        PreviousStop::PersistStopped { .. } => joined(
                            "failed to persist the previous owner stopped state: ",
                            error.as_str(),
                        ),
                        PreviousStop::ClearActiveOwner => joined(
                            "failed to clear the previous active owner: ",
                            error.as_str(),
                        ),
                        _ => error,
                    },
                ),
            },
            Ok(()) => match pending {
                PreviousStop::StopCore => match &self.previous_owner {
                    Some(previous) => PreviousStop::PersistStopped {
                        owner_key: previous.owner_key.clone(),
                    },
                    None => PreviousStop::ClearActiveOwner,
                },
                PreviousStop::PersistStopped { .. } => PreviousStop::ClearActiveOwner,
                _ => PreviousStop::Finished { result: Ok(()) },
            },
        }
    }

    /// Begins to start the new core: from here on it may be running from the
    /// prepared runtime.
    pub fn begin_start(&mut self) -> (first: NewStart)
        ensures
            final(self).previous_owner == old(self).previous_owner,
            match old(self).prepared_runtime {
                Some(runtime) => {
                    &&& first is StartCore
                    &&& final(self).prepared_runtime == Some(
                        PreparedRuntime { state: PreparedRuntimeState::MayBeInUse, ..runtime },
                    )
                },
                None => {
                    &&& final(self).prepared_runtime is None
                    &&& first matches NewStart::Finished { result: Err(message) } && message@
                        == "prepared runtime is unavailable"@
                },
            },
            start_begins(*old(self), *final(self), first),
    {
        match self.prepared_runtime.take() {
            Some(runtime) => {
                let mut runtime: PreparedRuntime = runtime;
                runtime.mark_may_be_in_use();
                self.prepared_runtime = Some(runtime);
                NewStart::StartCore
            },
            None => NewStart::Finished {
                result: Err("prepared runtime is unavailable".to_owned()),
            },
        }
    }

    fn take_to_discard(&mut self) -> (taken: Option<PreparedRuntime>)
        ensures
            final(self).previous_owner == old(self).previous_owner,
            final(self).prepared_runtime is None,
            taken == (match old(self).prepared_runtime {
                Some(runtime) => Some(to_discard(runtime)),
                None => None,
            }),
    {
        match self.prepared_runtime.take() {
            Some(runtime) => {
                let mut runtime: PreparedRuntime = runtime;
                runtime.begin_discard();
                Some(runtime)
            },
            None => None,
        }
    }

    /// Decides what follows when the pending step of starting the new core has
    /// ended.
    pub fn start_new_core(&mut self, pending: NewStart, outcome: Result<(), String>) -> (next:
        NewStart)
        requires
            !(pending is Finished),
        ensures
            start_follows(*old(self), pending, outcome, *final(self), next),
    {
        match pending {
            NewStart::StartCore => match outcome {
                Ok(()) => NewStart::Finished { result: Ok(()) },
                Err(error) => NewStart::StopRejected { error },
            },
            NewStart::StopRejected { error } => match outcome {
                Ok(()) => NewStart::PersistStopped { error },
                Err(stop_error) => NewStart::Finished {
                    result: Err(
                        error.concat("; failed to confirm termination of the rejected core: ").concat(
                            stop_error.as_str(),
                        ),
                    ),
                },
            },
            NewStart::PersistStopped { error } => match self.take_to_discard() {
                Some(runtime) => NewStart::DiscardRuntime { error, runtime },
                None => NewStart::Finished { result: Err(error) },
            },
            NewStart::DiscardRuntime { error, .. } => NewStart::Finished {
                result: Err(
                    append_failure(
                        error,
                        "; failed to discard rejected runtime generation: ",
                        &outcome,
                    ),
                ),
            },
            NewStart::Finished { result } => NewStart::Finished { result },
        }
    }

    /// Begins to commit the new owner.
    pub fn begin_commit(&self) -> (first: OwnerCommit)
        ensures
            self.prepared_runtime is Some ==> first is PersistStarted,
            self.prepared_runtime is None ==> (first matches OwnerCommit::Finished {
                result: Err(message),
            } && message@ == "prepared runtime is unavailable during owner commit"@),
            commit_begins(*self, first),
    {
        if self.prepared_runtime.is_some() {
            OwnerCommit::PersistStarted
        } else {
            OwnerCommit::Finished {
                result: Err("prepared runtime is unavailable during owner commit".to_owned()),
            }
        }
    }

    /// Decides what follows when the pending step of undoing a failed commit has
    /// ended.
    pub fn rollback_commit_failure(
        &mut self,
        pending: OwnerCommit,
        outcome: Result<(), String>,
    ) -> (next: OwnerCommit)
        requires
            pending is RollBackOwner || pending is DiscardRuntime,
        ensures
            commit_failure_follows(*old(self), pending, outcome, *final(self), next),
    {
        match pending {
            OwnerCommit::RollBackOwner { error } => match outcome {
                Err(rollback_error) => OwnerCommit::Finished {
                    result: Err(
                        error.concat("; failed to roll back uncommitted owner core: ").concat(
                            rollback_error.as_str(),
                        ),
                    ),
                },
                Ok(()) => match self.take_to_discard() {
                    Some(runtime) => OwnerCommit::DiscardRuntime { error, runtime },
                    None => OwnerCommit::Finished { result: Err(error) },
                },
            },
            OwnerCommit::DiscardRuntime { error, .. } => OwnerCommit::Finished {
                result: Err(
                    append_failure(
                        error,
                        "; failed to discard uncommitted runtime generation: ",
                        &outcome,
                    ),
                ),
            },
            other => other,
        }
    }

    /// Decides what follows when the pending step of committing the new owner has
    /// ended.
    pub fn commit_new_owner(&mut self, pending: OwnerCommit, event: CommitEvent) -> (next:
        OwnerCommit)
        requires
            commit_event_fits(pending, event),
        ensures
            commit_follows(*old(self), pending, event, *final(self), next),
    {
        match (pending, event) {
            (OwnerCommit::PersistStarted, CommitEvent::Failed(error)) => OwnerCommit::RollBackOwner {
                error,
            },
            (OwnerCommit::PersistStarted, _) => OwnerCommit::CommitSession,
            (OwnerCommit::CommitSession, CommitEvent::Failed(error)) => OwnerCommit::RollBackOwner {
                error,
            },
            (OwnerCommit::CommitSession, CommitEvent::Committed(active)) => OwnerCommit::Finished {
                result: Ok(active),
            },
            (undone, CommitEvent::Failed(error)) => self.rollback_commit_failure(
                undone,
                Err(error),
            ),
            (undone, _) => self.rollback_commit_failure(undone, Ok(())),
        }
    }

    /// Makes the prepared runtime the committed one, and hands out the stale
    /// directories that are to be removed.
    pub fn finalize_new_owner(&mut self) -> (finalized: Result<Vec<String>, String>)
        ensures
            final(self).previous_owner == old(self).previous_owner,
            final(self).prepared_runtime is None,
            match old(self).prepared_runtime {
                Some(runtime) => finalized == Ok::<Vec<String>, String>(
                    runtime.stale_runtime_paths,
                ),
                None => finalized matches Err(message) && message@
                    == "prepared runtime disappeared during owner finalization"@,
            },
            finalization_follows(*old(self), *final(self), finalized),
    {
        match self.prepared_runtime.take() {
            Some(runtime) => {
                let mut runtime: PreparedRuntime = runtime;
                Ok(runtime.commit())
            },
            None => Err("prepared runtime disappeared during owner finalization".to_owned()),
        }
    }

    /// Decides what follows when the pending step of rolling back the new owner
    /// has ended.
    pub fn rollback_new_owner(
        &mut self,
        pending: NewOwnerRollback,
        outcome: Result<(), String>,
    ) -> (next: NewOwnerRollback)
        requires
            !(pending is Finished),
        ensures
            rollback_follows(*old(self), pending, outcome, *final(self), next),
    {
        match pending {
            NewOwnerRollback::RestoreDirect => NewOwnerRollback::RollBackOwner { proxy: outcome },
            NewOwnerRollback::RollBackOwner { proxy } => {
                if outcome.is_err() {
                    return finish_rollback(proxy, outcome, Ok(()));
                }
                match self.take_to_discard() {
                    Some(runtime) => NewOwnerRollback::DiscardRuntime { proxy, runtime },
                    None => {
                        let lost: String =
                            "prepared runtime disappeared during owner rollback".to_owned();
                        finish_rollback(proxy, Ok(()), Err(lost))
                    },
                }
            },
            NewOwnerRollback::DiscardRuntime { proxy, .. } => finish_rollback(
                proxy,
                Ok(()),
                outcome,
            ),
            other => other,
        }
    }

    /// Takes out the runtime that a failed takeover left without ever starting a
    /// core from it.
    pub fn discard_unstarted_runtime(&mut self) -> (taken: Option<PreparedRuntime>)
        ensures
            final(self).previous_owner == old(self).previous_owner,
            match old(self).prepared_runtime {
                Some(runtime) => if runtime.state == PreparedRuntimeState::Unused {
                    taken == Some(runtime) && final(self).prepared_runtime is None
                } else {
                    taken is None && final(self).prepared_runtime == Some(runtime)
                },
                None => taken is None && final(self).prepared_runtime is None,
            },
            unstarted_is_taken(*old(self), *final(self), taken),
    {
        let unused: bool = match &self.prepared_runtime {
            Some(runtime) => runtime.is_unused(),
            None => false,
        };
        if unused {
            self.prepared_runtime.take()
        } else {
            None
        }
    }
}

/// What follows when the pending step of rolling back a started owner ends. The
/// service is fatally broken where the core cannot be stopped, and where neither
/// record can be written.
pub open spec fn started_rollback_follows(
    pending: StartedRollback,
    outcome: Result<(), String>,
    next: StartedRollback,
) -> bool {
    match (pending, outcome) {
        (StartedRollback::StopCore, Err(error)) => next matches StartedRollback::Finished {
            result: Err(message),
            fatal: true,
        } && message@ == "failed to terminate owner core during rollback: "@ + error@,
        (StartedRollback::StopCore, Ok(())) => next is PersistStopped,
        (StartedRollback::PersistStopped, persisted) => next == (
        StartedRollback::ClearActiveOwner { persisted }),
        (StartedRollback::ClearActiveOwner { persisted: Ok(()) }, cleared) => next == (
        StartedRollback::Finished { result: cleared, fatal: false }),
        (StartedRollback::ClearActiveOwner { persisted: Err(error) }, Ok(())) => next == (
        StartedRollback::Finished { result: Err(error), fatal: false }),
        (StartedRollback::ClearActiveOwner { persisted: Err(error) }, Err(active_error)) => next
            matches StartedRollback::Finished { result: Err(message), fatal: true } && message@
            == "failed to persist stopped owner state: "@ + error@
            + "; failed to clear active owner: "@ + active_error@,
        (StartedRollback::Finished { .. }, _) => false,
    }
}

/// Decides what follows when the pending step of rolling back a started owner has
/// ended.
pub fn rollback_started_owner(pending: StartedRollback, outcome: Result<(), String>) -> (next:
    StartedRollback)
    requires
        !(pending is Finished),
    ensures
        started_rollback_follows(pending, outcome, next),
{
    match pending {
        StartedRollback::StopCore => match outcome {
            Ok(()) => StartedRollback::PersistStopped,
            Err(error) => StartedRollback::Finished {
                result: Err(
                    joined("failed to terminate owner core during rollback: ", error.as_str()),
                ),
                fatal: true,
            },
        },
        StartedRollback::PersistStopped => StartedRollback::ClearActiveOwner {
            persisted: outcome,
        },
        StartedRollback::ClearActiveOwner { persisted } => match persisted {
            Ok(()) => StartedRollback::Finished { result: outcome, fatal: false },
            Err(error) => match outcome {
                Ok(()) => StartedRollback::Finished { result: Err(error), fatal: false },
                Err(active_error) => StartedRollback::Finished {
                    result: Err(
                        joined("failed to persist stopped owner state: ", error.as_str()).concat(
                            "; failed to clear active owner: ",
                        ).concat(active_error.as_str()),
                    ),
                    fatal: true,
                },
            },
        },
        StartedRollback::Finished { result, fatal } => StartedRollback::Finished { result, fatal },
    }
}

/// Whether `stages` are those of one start of a core, `worlds` what the takeover
/// held at each of them and `outcomes` how the steps ended.
pub open spec fn is_start(
    worlds: Seq<StartOwnerTransition>,
    stages: Seq<NewStart>,
    outcomes: Seq<Result<(), String>>,
) -> bool {
    &&& stages.len() == outcomes.len() + 1
    &&& worlds.len() == stages.len()
    &&& stages[0] is StartCore
    &&& worlds[0].prepared_runtime matches Some(runtime) && runtime.state
        == PreparedRuntimeState::MayBeInUse
    &&& forall|i: int|
        #![trigger outcomes[i]]
        0 <= i < outcomes.len() ==> start_follows(
            worlds[i],
            stages[i],
            outcomes[i],
            worlds[i + 1],
            stages[i + 1],
        )
}

/// A rejected core's runtime is discarded only after the core was stopped.
pub proof fn runtime_is_discarded_only_after_stop(
    worlds: Seq<StartOwnerTransition>,
    stages: Seq<NewStart>,
    outcomes: Seq<Result<(), String>>,
    at: int,
)
    requires
        is_start(worlds, stages, outcomes),
        0 <= at < stages.len(),
        stages[at] is DiscardRuntime,
    ensures
        at >= 3,
        stages[at - 3] is StartCore && outcomes[at - 3] is Err,
        stages[at - 2] is StopRejected && outcomes[at - 2] is Ok,
{
    let _ = outcomes[at - 1];
    let _ = outcomes[at - 2];
    let _ = outcomes[at - 3];
}

/// As long as it is not certain that the new core has stopped, its runtime is
/// kept, and giving it up leaves the directory in place.
pub proof fn unconfirmed_core_keeps_its_runtime(
    worlds: Seq<StartOwnerTransition>,
    stages: Seq<NewStart>,
    outcomes: Seq<Result<(), String>>,
    at: int,
)
    requires
        is_start(worlds, stages, outcomes),
        0 <= at < stages.len(),
        forall|i: int|
            0 <= i < at ==> !(stages[i] is StopRejected && (#[trigger] outcomes[i]) is Ok),
    ensures
        !(stages[at] is PersistStopped),
        !(stages[at] is DiscardRuntime),
        worlds[at].prepared_runtime matches Some(runtime) && runtime.state
            == PreparedRuntimeState::MayBeInUse,
    decreases at,
{
    if at > 0 {
        unconfirmed_core_keeps_its_runtime(worlds, stages, outcomes, at - 1);
        let _ = outcomes[at - 1];
    }
}

/// A failed commit discards the runtime only where the owner was rolled back.
pub proof fn commit_discards_only_after_rollback(
    before: StartOwnerTransition,
    pending: OwnerCommit,
    event: CommitEvent,
    after: StartOwnerTransition,
    next: OwnerCommit,
)
    requires
        commit_event_fits(pending, event),
        commit_follows(before, pending, event, after, next),
        next is DiscardRuntime || after.prepared_runtime != before.prepared_runtime,
    ensures
        pending is RollBackOwner,
        event is Done,
{
}

/// Whether `stages` are those of one rollback of a started owner, `outcomes`
/// being how its steps ended.
pub open spec fn is_started_rollback(
    stages: Seq<StartedRollback>,
    outcomes: Seq<Result<(), String>>,
) -> bool {
    &&& stages.len() == outcomes.len() + 1
    &&& stages[0] is StopCore
    &&& forall|i: int|
        #![trigger outcomes[i]]
        0 <= i < outcomes.len() ==> started_rollback_follows(
            stages[i],
            outcomes[i],
            stages[i + 1],
        )
}

/// The rollback of a started owner first stops the core. Where that succeeds,
/// both records are written, whatever becomes of the first; it succeeds only
/// where all three steps did, and is fatal exactly where the core could not be
/// stopped or neither record could be written.
pub proof fn started_rollback_tries_everything(
    stages: Seq<StartedRollback>,
    outcomes: Seq<Result<(), String>>,
    result: Result<(), String>,
    fatal: bool,
)
    requires
        is_started_rollback(stages, outcomes),
        stages.last() == (StartedRollback::Finished { result, fatal }),
    ensures
        outcomes[0] is Err ==> outcomes.len() == 1 && result is Err && fatal,
        outcomes[0] is Ok ==> {
            &&& outcomes.len() == 3
            &&& result is Ok <==> outcomes[1] is Ok && outcomes[2] is Ok
            &&& fatal <==> outcomes[1] is Err && outcomes[2] is Err
        },
{
    assert(outcomes.len() > 0);
    let _ = outcomes[0];
    if outcomes.len() > 1 {
        let _ = outcomes[1];
    }
    if outcomes.len() > 2 {
        let _ = outcomes[2];
    }
    if outcomes.len() > 3 {
        let _ = outcomes[3];
    }
}

/// A new owner's rollback is fatal unless all of it succeeds, and it discards the
/// runtime only where the owner's own rollback has succeeded.
pub proof fn rollback_discards_only_after_owner(
    before: StartOwnerTransition,
    pending: NewOwnerRollback,
    outcome: Result<(), String>,
    after: StartOwnerTransition,
    next: NewOwnerRollback,
)
    requires
        rollback_follows(before, pending, outcome, after, next),
    ensures
        next is DiscardRuntime || after.prepared_runtime != before.prepared_runtime
            ==> pending is RollBackOwner && outcome is Ok,
        next matches NewOwnerRollback::Finished { result, fatal } ==> fatal == (result is Err),
{
}

/// Whether beginning to start the new core turned `before` into `after`, `first` being
/// the first step.
pub open spec fn start_begins(
    before: StartOwnerTransition,
    after: StartOwnerTransition,
    first: NewStart,
) -> bool {
    &&& after.previous_owner == before.previous_owner
    &&& match before.prepared_runtime {
        Some(runtime) => {
            &&& first is StartCore
            &&& after.prepared_runtime == Some(
                PreparedRuntime { state: PreparedRuntimeState::MayBeInUse, ..runtime },
            )
        },
        None => {
            &&& after.prepared_runtime is None
            &&& first matches NewStart::Finished { result: Err(message) } && message@
                == "prepared runtime is unavailable"@
        },
    }
}

/// Whether making the prepared runtime the committed one turned `before` into `after`.
pub open spec fn finalization_follows(
    before: StartOwnerTransition,
    after: StartOwnerTransition,
    finalized: Result<Vec<String>, String>,
) -> bool {
    &&& after.previous_owner == before.previous_owner
    &&& after.prepared_runtime is None
    &&& match before.prepared_runtime {
        Some(runtime) => finalized == Ok::<Vec<String>, String>(runtime.stale_runtime_paths),
        None => finalized matches Err(message) && message@
            == "prepared runtime disappeared during owner finalization"@,
    }
}

/// Whether taking out a runtime that was never started turned `before` into `after`.
pub open spec fn unstarted_is_taken(
    before: StartOwnerTransition,
    after: StartOwnerTransition,
    taken: Option<PreparedRuntime>,
) -> bool {
    &&& after.previous_owner == before.previous_owner
    &&& match before.prepared_runtime {
        Some(runtime) => if runtime.state == PreparedRuntimeState::Unused {
            taken == Some(runtime) && after.prepared_runtime is None
        } else {
            taken is None && after.prepared_runtime == Some(runtime)
        },
        None => taken is None && after.prepared_runtime is None,
    }
}

/// A start that begins leaves the runtime what it is, and marks it as one that a core may
/// be running from: whatever happens next, it is not taken for one that was never
/// started, and giving it up leaves its directory.
pub proof fn a_begun_start_is_not_taken_back(
    before: StartOwnerTransition,
    begun: StartOwnerTransition,
    first: NewStart,
    after: StartOwnerTransition,
    taken: Option<PreparedRuntime>,
)
    requires
        start_begins(before, begun, first),
        unstarted_is_taken(begun, after, taken),
    ensures
        taken is None,
        after == begun,
        begun.previous_owner == before.previous_owner,
        before.prepared_runtime is Some <==> begun.prepared_runtime is Some,
        before.prepared_runtime is Some <==> first is StartCore,
        before.prepared_runtime matches Some(runtime) ==> (begun.prepared_runtime matches Some(
            started,
        ) && started.clash_config == runtime.clash_config && started.runtime == runtime.runtime
            && started.stale_runtime_paths == runtime.stale_runtime_paths && drop_action_of(
            started.state,
        ) == DropAction::LeaveDirectory),
        before.prepared_runtime is None ==> (first matches NewStart::Finished {
            result: Err(message),
        } && message@ == "prepared runtime is unavailable"@),
{
}

/// A runtime from which no core was started is handed out as it is, and then there is
/// none left to hand out.
pub proof fn an_unstarted_runtime_is_taken_once(
    before: StartOwnerTransition,
    between: StartOwnerTransition,
    after: StartOwnerTransition,
    runtime: PreparedRuntime,
    first: Option<PreparedRuntime>,
    second: Option<PreparedRuntime>,
)
    requires
        before.prepared_runtime == Some(runtime),
        drop_action_of(runtime.state) == DropAction::RemoveDirectory,
        unstarted_is_taken(before, between, first),
        unstarted_is_taken(between, after, second),
    ensures
        first == Some(runtime),
        between.prepared_runtime is None,
        second is None,
        after == between,
        after.previous_owner == before.previous_owner,
{
}

/// The prepared runtime is committed once: the first time hands out all the stale
/// directories that were found for it, the second fails.
pub proof fn a_runtime_is_finalized_once(
    before: StartOwnerTransition,
    between: StartOwnerTransition,
    after: StartOwnerTransition,
    runtime: PreparedRuntime,
    first: Result<Vec<String>, String>,
    second: Result<Vec<String>, String>,
)
    requires
        before.prepared_runtime == Some(runtime),
        finalization_follows(before, between, first),
        finalization_follows(between, after, second),
    ensures
        first matches Ok(stale) && stale == runtime.stale_runtime_paths,
        second matches Err(message) && message@
            == "prepared runtime disappeared during owner finalization"@,
        after.previous_owner == before.previous_owner,
        between.prepared_runtime is None,
        after.prepared_runtime is None,
{
}

/// Whether `stages` are those of one stop of the previous core, `outcomes` being how its
/// steps ended.
pub open spec fn is_previous_stop(
    transition: StartOwnerTransition,
    stages: Seq<PreviousStop>,
    outcomes: Seq<Result<(), String>>,
) -> bool {
    &&& stages.len() == outcomes.len() + 1
    &&& stages[0] is StopCore
    &&& forall|i: int|
        #![trigger outcomes[i]]
        0 <= i < outcomes.len() ==> previous_stop_follows(
            transition,
            stages[i],
            outcomes[i],
            stages[i + 1],
        )
}

/// The previous core is stopped first. Only then its owner, where there is one, is
/// recorded as stopped, under its own key, and only then no owner is active any more. The
/// first step that fails ends it, and is told.
pub proof fn previous_stop_tells_what_failed(
    transition: StartOwnerTransition,
    stages: Seq<PreviousStop>,
    outcomes: Seq<Result<(), String>>,
    result: Result<(), String>,
)
    requires
        is_previous_stop(transition, stages, outcomes),
        stages.last() == (PreviousStop::Finished { result }),
    ensures
        ({
            let told = |prefix: Seq<char>|
                result matches Err(message) && outcomes.last() matches Err(error) && message@
                    == prefix + error@;
            let last = outcomes.len() - 1;
            &&& outcomes.len() > 0
            &&& forall|i: int| 0 <= i < last ==> (#[trigger] outcomes[i]) is Ok
            &&& result is Ok <==> outcomes.last() is Ok
            &&& outcomes[0] is Err ==> last == 0 && result == outcomes[0]
            &&& outcomes[0] is Ok ==> match transition.previous_owner {
                Some(previous) => {
                    &&& stages[1] matches PreviousStop::PersistStopped { owner_key } && owner_key@
                        == previous.owner_key@
                    &&& outcomes[1] is Err ==> last == 1 && told(
                        "failed to persist the previous owner stopped state: "@,
                    )
                    &&& outcomes[1] is Ok ==> last == 2 && stages[2] is ClearActiveOwner && (
                    outcomes[2] is Err ==> told("failed to clear the previous active owner: "@))
                },
                None => last == 1 && stages[1] is ClearActiveOwner && (outcomes[1] is Err ==> told(
                    "failed to clear the previous active owner: "@,
                )),
            }
        }),
{
    assert(outcomes.len() > 0);
    let _ = outcomes[0];
    if outcomes.len() > 1 {
        let _ = outcomes[1];
    }
    if outcomes.len() > 2 {
        let _ = outcomes[2];
    }
    if outcomes.len() > 3 {
        let _ = outcomes[3];
    }
}

/// A core that starts ends its start at once. One that does not is stopped; where it
/// cannot be, both failures are told. Where it can be, its runtime is discarded, and the
/// first failure is told with what failed of that.
pub proof fn start_tells_what_failed(
    worlds: Seq<StartOwnerTransition>,
    stages: Seq<NewStart>,
    outcomes: Seq<Result<(), String>>,
    result: Result<(), String>,
)
    requires
        is_start(worlds, stages, outcomes),
        stages.last() == (NewStart::Finished { result }),
    ensures
        outcomes.len() > 0,
        result is Ok <==> outcomes[0] is Ok,
        outcomes[0] is Ok ==> outcomes.len() == 1 && worlds.last().prepared_runtime
            == worlds[0].prepared_runtime,
        outcomes[0] matches Err(error) ==> (result matches Err(message) && stages[1] is StopRejected
            && match outcomes[1] {
            Err(stop_error) => {
                &&& outcomes.len() == 2
                &&& message@ == error@ + "; failed to confirm termination of the rejected core: "@
                    + stop_error@
                &&& worlds.last().prepared_runtime == worlds[0].prepared_runtime
            },
            Ok(()) => {
                &&& outcomes.len() == 4
                &&& stages[2] is PersistStopped
                &&& stages[3] matches NewStart::DiscardRuntime { runtime, .. }
                    && worlds[0].prepared_runtime matches Some(prepared) && runtime == (
                PreparedRuntime { state: PreparedRuntimeState::Unused, ..prepared })
                &&& worlds.last().prepared_runtime is None
                &&& outcomes[3] is Ok ==> message@ == error@
                &&& outcomes[3] matches Err(second) ==> message@ == error@
                    + "; failed to discard rejected runtime generation: "@ + second@
            },
        }),
{
    assert(outcomes.len() > 0);
    let _ = outcomes[0];
    if outcomes.len() > 1 {
        let _ = outcomes[1];
    }
    if outcomes.len() > 2 {
        let _ = outcomes[2];
    }
    if outcomes.len() > 3 {
        let _ = outcomes[3];
    }
    if outcomes.len() > 4 {
        let _ = outcomes[4];
    }
}

/// Whether `stages` are those of one commit of a new owner, `worlds` what the takeover
/// held at each of them and `events` how the steps ended.
pub open spec fn is_commit(
    worlds: Seq<StartOwnerTransition>,
    stages: Seq<OwnerCommit>,
    events: Seq<CommitEvent>,
) -> bool {
    &&& stages.len() == events.len() + 1
    &&& worlds.len() == stages.len()
    &&& stages[0] is PersistStarted
    &&& worlds[0].prepared_runtime is Some
    &&& forall|i: int|
        #![trigger events[i]]
        0 <= i < events.len() ==> commit_event_fits(stages[i], events[i]) && commit_follows(
            worlds[i],
            stages[i],
            events[i],
            worlds[i + 1],
            stages[i + 1],
        )
}

/// A commit records the owner as started and commits its session, in this order, and
/// where both succeed it gives back the very session that was committed, the runtime
/// being kept.
pub proof fn commit_gives_back_the_session(
    worlds: Seq<StartOwnerTransition>,
    stages: Seq<OwnerCommit>,
    events: Seq<CommitEvent>,
    result: Result<ActiveOwnerState, String>,
)
    requires
        is_commit(worlds, stages, events),
        stages.last() == (OwnerCommit::Finished { result }),
        !(events[0] is Failed),
        !(events[1] is Failed),
    ensures
        events.len() == 2,
        stages[1] is CommitSession,
        events[1] matches CommitEvent::Committed(active) && result matches Ok(given) && given
            == active,
        worlds.last() == worlds[0],
{
    assert(events.len() > 0);
    let _ = events[0];
    if events.len() > 1 {
        let _ = events[1];
    }
    if events.len() > 2 {
        let _ = events[2];
    }
}

/// A commit that fails rolls the owner back. Where that fails too, both failures are told
/// and the runtime is kept; else the runtime is discarded, and the first failure is told
/// with what failed of that.
pub proof fn failed_commit_is_undone(
    worlds: Seq<StartOwnerTransition>,
    stages: Seq<OwnerCommit>,
    events: Seq<CommitEvent>,
    result: Result<ActiveOwnerState, String>,
    at: int,
    error: String,
)
    requires
        is_commit(worlds, stages, events),
        stages.last() == (OwnerCommit::Finished { result }),
        at == 0 || at == 1 && !(events[0] is Failed),
        events[at] == CommitEvent::Failed(error),
    ensures
        stages[at + 1] == (OwnerCommit::RollBackOwner { error }),
        result matches Err(message) && (events[at + 1] matches CommitEvent::Failed(second) ==> {
            &&& events.len() == at + 2
            &&& message@ == error@ + "; failed to roll back uncommitted owner core: "@ + second@
            &&& worlds.last() == worlds[0]
        }),
        events[at + 1] is Done ==> {
            &&& events.len() == at + 3
            &&& stages[at + 2] matches OwnerCommit::DiscardRuntime { runtime, .. }
                && worlds[0].prepared_runtime matches Some(prepared) && runtime == (
            PreparedRuntime { state: PreparedRuntimeState::Unused, ..prepared })
            &&& worlds.last().prepared_runtime is None
            &&& result matches Err(message) && message@ == (match events[at + 2] {
                CommitEvent::Failed(second) => error@
                    + "; failed to discard uncommitted runtime generation: "@ + second@,
                _ => error@,
            })
        },
        events[at + 1] is Done || events[at + 1] is Failed,
{
    assert(events.len() > 0);
    let _ = events[0];
    if events.len() > 1 {
        let _ = events[1];
    }
    if events.len() > 2 {
        let _ = events[2];
    }
    if events.len() > 3 {
        let _ = events[3];
    }
    if events.len() > 4 {
        let _ = events[4];
    }
}

/// Whether `stages` are those of one rollback of a new owner, `worlds` what the takeover
/// held at each of them and `outcomes` how the steps ended.
pub open spec fn is_new_owner_rollback(
    worlds: Seq<StartOwnerTransition>,
    stages: Seq<NewOwnerRollback>,
    outcomes: Seq<Result<(), String>>,
) -> bool {
    &&& stages.len() == outcomes.len() + 1
    &&& worlds.len() == stages.len()
    &&& stages[0] is RestoreDirect
    &&& forall|i: int|
        #![trigger outcomes[i]]
        0 <= i < outcomes.len() ==> rollback_follows(
            worlds[i],
            stages[i],
            outcomes[i],
            worlds[i + 1],
            stages[i + 1],
        )
}

/// The text of a rollback with one or two failures.
proof fn lemma_failures_joined(one: Seq<char>, two: Seq<char>)
    ensures
        joined_with(seq![one], "; "@) == one,
        joined_with(seq![one].push(two), "; "@) == one + "; "@ + two,
{
    reveal_with_fuel(joined_with, 3);
    assert(seq![one].push(two).drop_last() =~= seq![one]);
}

/// The rollback of a new owner gives up its proxy, rolls the owner back whatever came of
/// that, and discards its runtime where the owner was rolled back. Each part that failed
/// is told, and any of them makes the rollback fatal.
pub proof fn new_owner_rollback_tells_every_failure(
    worlds: Seq<StartOwnerTransition>,
    stages: Seq<NewOwnerRollback>,
    outcomes: Seq<Result<(), String>>,
    result: Result<(), String>,
    fatal: bool,
)
    requires
        is_new_owner_rollback(worlds, stages, outcomes),
        stages.last() == (NewOwnerRollback::Finished { result, fatal }),
        worlds[0].prepared_runtime is Some,
    ensures
        outcomes.len() >= 2,
        stages[1] is RollBackOwner,
        outcomes.len() == if outcomes[1] is Ok {
            3int
        } else {
            2
        },
        fatal <==> result is Err,
        result is Ok <==> forall|i: int| 0 <= i < outcomes.len() ==> (#[trigger] outcomes[i]) is Ok,
        outcomes[1] is Ok ==> (stages[2] matches NewOwnerRollback::DiscardRuntime { runtime, .. }
            && worlds[0].prepared_runtime matches Some(prepared) && runtime == (PreparedRuntime {
            state: PreparedRuntimeState::Unused,
            ..prepared
        })),
        outcomes[1] is Err ==> worlds.last().prepared_runtime == worlds[0].prepared_runtime,
        result matches Err(message) ==> match (outcomes[0], outcomes.last()) {
            (Err(proxy), Err(second)) => message@ == "proxy cleanup failed: "@ + proxy@ + "; "@
                + ((if outcomes[1] is Err {
                "owner rollback failed: "@
            } else {
                "runtime cleanup failed: "@
            }) + second@),
            (Err(proxy), Ok(())) => message@ == "proxy cleanup failed: "@ + proxy@,
            (Ok(()), Err(second)) => message@ == (if outcomes[1] is Err {
                "owner rollback failed: "@
            } else {
                "runtime cleanup failed: "@
            }) + second@,
            (Ok(()), Ok(())) => false,
        },
{
    assert(outcomes.len() > 0);
    let _ = outcomes[0];
    if outcomes.len() > 1 {
        let _ = outcomes[1];
    }
    if outcomes.len() > 2 {
        let _ = outcomes[2];
    }
    if outcomes.len() > 3 {
        let _ = outcomes[3];
    }
    assert(outcomes.len() >= 2);
    let one = match outcomes[0] {
        Err(error) => "proxy cleanup failed: "@ + error@,
        Ok(()) => Seq::empty(),
    };
    let two = match outcomes.last() {
        Err(error) => (if outcomes[1] is Err {
            "owner rollback failed: "@
        } else {
            "runtime cleanup failed: "@
        }) + error@,
        Ok(()) => Seq::empty(),
    };
    lemma_failures_joined(one, two);
    lemma_failures_joined(two, one);
    assert(Seq::<Seq<char>>::empty().push(two) =~= seq![two]);
    assert(Seq::<Seq<char>>::empty().push(one) =~= seq![one]);
    let third = if outcomes[1] is Ok {
        outcomes[2]
    } else {
        Ok(())
    };
    let failures = rollback_failures(outcomes[0], outcomes[1], third);
    if outcomes[0] is Err && outcomes.last() is Err {
        assert(failures =~= seq![one].push(two));
    } else if outcomes[0] is Err {
        assert(failures =~= seq![one]);
    } else if outcomes.last() is Err {
        assert(failures =~= seq![two]);
    }
}

/// What the rollback of a started owner tells of its failures.
pub proof fn started_rollback_tells_what_failed(
    stages: Seq<StartedRollback>,
    outcomes: Seq<Result<(), String>>,
    result: Result<(), String>,
    fatal: bool,
)
    requires
        is_started_rollback(stages, outcomes),
        stages.last() == (StartedRollback::Finished { result, fatal }),
    ensures
        outcomes[0] matches Err(error) ==> (result matches Err(message) && message@
            == "failed to terminate owner core during rollback: "@ + error@),
        outcomes[0] is Ok ==> {
            &&& stages[1] is PersistStopped
            &&& stages[2] is ClearActiveOwner
            &&& match (outcomes[1], outcomes[2]) {
                (Ok(()), cleared) => result == cleared,
                (persisted, Ok(())) => result == persisted,
                (Err(error), Err(active_error)) => result matches Err(message) && message@
                    == "failed to persist stopped owner state: "@ + error@
                    + "; failed to clear active owner: "@ + active_error@,
            }
        },
{
    started_rollback_tries_everything(stages, outcomes, result, fatal);
    let _ = outcomes[0];
    if outcomes.len() > 1 {
        let _ = outcomes[1];
        let _ = outcomes[2];
    }
}

/// Whether committing the new owner begins like this.
pub open spec fn commit_begins(transition: StartOwnerTransition, first: OwnerCommit) -> bool {
    match transition.prepared_runtime {
        Some(_) => first is PersistStarted,
        None => first matches OwnerCommit::Finished { result: Err(message) } && message@
            == "prepared runtime is unavailable during owner commit"@,
    }
}

/// An owner can be committed once its core was started, as long as its runtime was not
/// committed before.
pub proof fn commit_needs_a_runtime(
    before: StartOwnerTransition,
    begun: StartOwnerTransition,
    finalized: StartOwnerTransition,
    start: NewStart,
    stale: Result<Vec<String>, String>,
    first: OwnerCommit,
    second: OwnerCommit,
)
    requires
        start_begins(before, begun, start),
        start is StartCore,
        commit_begins(begun, first),
        finalization_follows(begun, finalized, stale),
        commit_begins(finalized, second),
    ensures
        first is PersistStarted,
        stale is Ok,
        second matches OwnerCommit::Finished { result: Err(message) } && message@
            == "prepared runtime is unavailable during owner commit"@,
{
}

} // verus!
