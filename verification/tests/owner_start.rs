use clash_service_ipc::owner_start::{
    rollback_started_owner, CommitEvent, NewOwnerRollback, NewStart, OwnerCommit, PreviousStop,
    StartOwnerTransition, StartedRollback,
};
use clash_service_ipc::runtime::{
    ClashConfig, CoreConfig, DropAction, PreparedRuntime, PreparedRuntimeState, WriterConfig,
};
use clash_service_ipc::session::ActiveOwnerState;

fn runtime() -> PreparedRuntime {
    PreparedRuntime {
        clash_config: ClashConfig {
            core_config: CoreConfig {
                core_path: String::new(),
                core_ipc_path: String::new(),
                config_path: String::new(),
                config_dir: String::new(),
            },
            log_config: WriterConfig {
                rest: (),
                directory: String::new(),
            },
        },
        runtime: "/state/runtime".to_string(),
        stale_runtime_paths: vec!["/state/old".to_string()],
        state: PreparedRuntimeState::Unused,
    }
}

fn active(key: &str) -> ActiveOwnerState {
    ActiveOwnerState {
        owner_key: key.to_string(),
        generation: 3,
        session_token_hash: "hash".to_string(),
    }
}

fn transition() -> StartOwnerTransition {
    StartOwnerTransition {
        previous_owner: Some(active("501")),
        prepared_runtime: Some(runtime()),
    }
}

fn fails(text: &str) -> Result<(), String> {
    Err(text.to_string())
}

#[test]
fn previous_core_is_stopped_before_it_is_forgotten() {
    let mut transition = transition();
    let pending = transition.stop_previous_core(PreviousStop::StopCore, Ok(()));
    match &pending {
        PreviousStop::PersistStopped { owner_key } => assert_eq!(owner_key, "501"),
        _ => panic!("the previous owner must be recorded"),
    }
    let pending = transition.stop_previous_core(pending, Ok(()));
    assert!(matches!(pending, PreviousStop::ClearActiveOwner));
    let pending = transition.stop_previous_core(pending, Ok(()));
    assert!(matches!(pending, PreviousStop::Finished { result: Ok(()) }));

    transition.previous_owner = None;
    assert!(matches!(
        transition.stop_previous_core(PreviousStop::StopCore, Ok(())),
        PreviousStop::ClearActiveOwner
    ));
}

#[test]
fn failures_to_stop_the_previous_core_are_told() {
    let transition = transition();
    let message = |pending| match transition.stop_previous_core(pending, fails("denied")) {
        PreviousStop::Finished { result: Err(text) } => text,
        _ => panic!("must fail"),
    };
    assert_eq!(message(PreviousStop::StopCore), "denied");
    assert_eq!(
        message(PreviousStop::PersistStopped {
            owner_key: "501".to_string()
        }),
        "failed to persist the previous owner stopped state: denied"
    );
    assert_eq!(
        message(PreviousStop::ClearActiveOwner),
        "failed to clear the previous active owner: denied"
    );
}

#[test]
fn rejected_core_is_stopped_before_its_runtime_goes() {
    let mut transition = transition();
    let pending = transition.begin_start();
    assert!(matches!(pending, NewStart::StartCore));
    assert!(!transition.prepared_runtime.as_ref().expect("kept").is_unused());
    let pending = transition.start_new_core(pending, fails("bad config"));
    assert!(matches!(pending, NewStart::StopRejected { .. }));
    let pending = transition.start_new_core(pending, Ok(()));
    assert!(matches!(pending, NewStart::PersistStopped { .. }));
    let pending = transition.start_new_core(pending, fails("ignored"));
    match &pending {
        NewStart::DiscardRuntime { runtime, .. } => {
            assert_eq!(runtime.drop_action(), DropAction::RemoveDirectory)
        }
        _ => panic!("the runtime must be discarded"),
    }
    assert!(transition.prepared_runtime.is_none());
    match transition.start_new_core(pending, fails("busy")) {
        NewStart::Finished { result } => assert_eq!(
            result,
            fails("bad config; failed to discard rejected runtime generation: busy")
        ),
        _ => panic!("must be finished"),
    }
}

#[test]
fn core_that_may_run_keeps_its_runtime() {
    let mut transition = transition();
    let pending = transition.begin_start();
    let pending = transition.start_new_core(pending, fails("bad config"));
    match transition.start_new_core(pending, fails("no answer")) {
        NewStart::Finished { result } => assert_eq!(
            result,
            fails("bad config; failed to confirm termination of the rejected core: no answer")
        ),
        _ => panic!("must be finished"),
    }
    let kept = transition.prepared_runtime.as_ref().expect("kept");
    assert_eq!(kept.drop_action(), DropAction::LeaveDirectory);
    assert!(transition.discard_unstarted_runtime().is_none());
    assert!(transition.prepared_runtime.is_some());
}

#[test]
fn started_core_is_committed_and_finalized() {
    let mut transition = transition();
    let pending = transition.begin_start();
    assert!(matches!(
        transition.start_new_core(pending, Ok(())),
        NewStart::Finished { result: Ok(()) }
    ));
    let pending = transition.begin_commit();
    assert!(matches!(pending, OwnerCommit::PersistStarted));
    let pending = transition.commit_new_owner(pending, CommitEvent::Done);
    assert!(matches!(pending, OwnerCommit::CommitSession));
    match transition.commit_new_owner(pending, CommitEvent::Committed(active("502"))) {
        OwnerCommit::Finished { result } => {
            assert_eq!(result.expect("committed").owner_key, "502")
        }
        _ => panic!("must be finished"),
    }
    assert_eq!(
        transition.finalize_new_owner(),
        Ok(vec!["/state/old".to_string()])
    );
    assert!(transition.prepared_runtime.is_none());
    assert_eq!(
        transition.finalize_new_owner(),
        Err("prepared runtime disappeared during owner finalization".to_string())
    );
}

#[test]
fn missing_runtime_is_told() {
    let mut transition = StartOwnerTransition {
        previous_owner: None,
        prepared_runtime: None,
    };
    match transition.begin_start() {
        NewStart::Finished { result } => {
            assert_eq!(result, fails("prepared runtime is unavailable"))
        }
        _ => panic!("must be finished"),
    }
    match transition.begin_commit() {
        OwnerCommit::Finished { result: Err(text) } => {
            assert_eq!(text, "prepared runtime is unavailable during owner commit")
        }
        _ => panic!("must be finished"),
    }
    assert!(transition.discard_unstarted_runtime().is_none());
}

#[test]
fn failed_commit_is_rolled_back() {
    for at_session in [false, true] {
        let mut transition = transition();
        let mut pending = transition.begin_commit();
        if at_session {
            pending = transition.commit_new_owner(pending, CommitEvent::Done);
        }
        let pending =
            transition.commit_new_owner(pending, CommitEvent::Failed("disk full".to_string()));
        assert!(matches!(pending, OwnerCommit::RollBackOwner { .. }));
        let pending = transition.commit_new_owner(pending, CommitEvent::Done);
        assert!(matches!(pending, OwnerCommit::DiscardRuntime { .. }));
        assert!(transition.prepared_runtime.is_none());
        match transition.commit_new_owner(pending, CommitEvent::Failed("busy".to_string())) {
            OwnerCommit::Finished { result: Err(text) } => assert_eq!(
                text,
                "disk full; failed to discard uncommitted runtime generation: busy"
            ),
            _ => panic!("must be finished"),
        }
    }
}

#[test]
fn commit_that_cannot_be_rolled_back_keeps_the_runtime() {
    let mut transition = transition();
    let pending = OwnerCommit::RollBackOwner {
        error: "disk full".to_string(),
    };
    match transition.rollback_commit_failure(pending, fails("core hangs")) {
        OwnerCommit::Finished { result: Err(text) } => assert_eq!(
            text,
            "disk full; failed to roll back uncommitted owner core: core hangs"
        ),
        _ => panic!("must be finished"),
    }
    assert!(transition.prepared_runtime.is_some());
}

#[test]
fn rollback_names_every_failure() {
    let run = |outcomes: [Result<(), String>; 3]| {
        let mut transition = transition();
        let mut pending = NewOwnerRollback::RestoreDirect;
        for outcome in outcomes {
            if matches!(pending, NewOwnerRollback::Finished { .. }) {
                continue;
            }
            pending = transition.rollback_new_owner(pending, outcome);
        }
        match pending {
            NewOwnerRollback::Finished { result, fatal } => {
                assert_eq!(fatal, result.is_err());
                (result, transition.prepared_runtime.is_some())
            }
            _ => panic!("must be finished"),
        }
    };
    assert_eq!(run([Ok(()), Ok(()), Ok(())]), (Ok(()), false));
    assert_eq!(
        run([fails("p"), Ok(()), Ok(())]),
        (fails("proxy cleanup failed: p"), false)
    );
    assert_eq!(
        run([fails("p"), fails("o"), Ok(())]),
        (
            fails("proxy cleanup failed: p; owner rollback failed: o"),
            true
        )
    );
    assert_eq!(
        run([Ok(()), Ok(()), fails("r")]),
        (fails("runtime cleanup failed: r"), false)
    );
    assert_eq!(
        run([fails("p"), Ok(()), fails("r")]),
        (
            fails("proxy cleanup failed: p; runtime cleanup failed: r"),
            false
        )
    );
}

#[test]
fn rollback_without_runtime_is_told() {
    let mut transition = StartOwnerTransition {
        previous_owner: None,
        prepared_runtime: None,
    };
    let pending = transition.rollback_new_owner(NewOwnerRollback::RestoreDirect, Ok(()));
    match transition.rollback_new_owner(pending, Ok(())) {
        NewOwnerRollback::Finished { result, fatal } => {
            assert!(fatal);
            assert_eq!(
                result,
                fails("runtime cleanup failed: prepared runtime disappeared during owner rollback")
            );
        }
        _ => panic!("must be finished"),
    }
}

#[test]
fn unused_runtime_is_taken_out_for_discard() {
    let mut transition = transition();
    let taken = transition.discard_unstarted_runtime().expect("unused");
    assert_eq!(taken.runtime, "/state/runtime");
    assert!(transition.prepared_runtime.is_none());
}

#[test]
fn started_owner_is_rolled_back_in_both_records() {
    let run = |outcomes: [Result<(), String>; 3]| {
        let mut pending = StartedRollback::StopCore;
        for outcome in outcomes {
            if matches!(pending, StartedRollback::Finished { .. }) {
                continue;
            }
            pending = rollback_started_owner(pending, outcome);
        }
        match pending {
            StartedRollback::Finished { result, fatal } => (result, fatal),
            _ => panic!("must be finished"),
        }
    };
    assert_eq!(run([Ok(()), Ok(()), Ok(())]), (Ok(()), false));
    assert_eq!(
        run([fails("s"), Ok(()), Ok(())]),
        (
            fails("failed to terminate owner core during rollback: s"),
            true
        )
    );
    assert_eq!(run([Ok(()), fails("d"), Ok(())]), (fails("d"), false));
    assert_eq!(run([Ok(()), Ok(()), fails("a")]), (fails("a"), false));
    assert_eq!(
        run([Ok(()), fails("d"), fails("a")]),
        (
            fails("failed to persist stopped owner state: d; failed to clear active owner: a"),
            true
        )
    );
}
