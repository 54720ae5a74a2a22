use clash_service_ipc::error::{ServiceError, ServiceErrorCode};
use clash_service_ipc::proxy::ProxyApplyOutcome;
use clash_service_ipc::session::ActiveOwnerState;
use clash_service_ipc::takeover::{owner_proxy_transition, OwnerProxyTransition, TransitionEvent};

type Transition = OwnerProxyTransition<ActiveOwnerState, ProxyApplyOutcome>;
type Event = TransitionEvent<ActiveOwnerState, ProxyApplyOutcome>;

struct RecordingTransition {
    events: Vec<&'static str>,
    active_owner: String,
    running_pid: u32,
    clear_fails: bool,
    compensation_fails: bool,
    stop_fails: bool,
    start_fails: bool,
    commit_fails: bool,
    apply_falls_back: bool,
    apply_fails: bool,
    rollback_fails: bool,
    finalize_fails: bool,
    runtime_finalized: bool,
}

fn owner_state(key: &str) -> ActiveOwnerState {
    ActiveOwnerState {
        owner_key: key.to_string(),
        generation: 7,
        session_token_hash: String::new(),
    }
}

fn failed(text: &str) -> Event {
    TransitionEvent::Failed(text.to_string())
}

impl RecordingTransition {
    fn perform(&mut self, pending: &Transition) -> Event {
        match pending {
            OwnerProxyTransition::ClearPreviousProxy => {
                self.events.push("clear_proxy");
                if self.clear_fails {
                    return failed("clear failed");
                }
                TransitionEvent::Done
            }
            OwnerProxyTransition::CompensateDirect { .. } => {
                self.events.push("compensate_direct");
                if self.compensation_fails {
                    return failed("compensation failed");
                }
                TransitionEvent::Done
            }
            OwnerProxyTransition::StopPreviousCore => {
                self.events.push("stop_a");
                if self.stop_fails {
                    return failed("stop failed");
                }
                self.running_pid = 0;
                TransitionEvent::Done
            }
            OwnerProxyTransition::StartNewCore => {
                self.events.push("start_b");
                if self.start_fails {
                    return failed("start failed");
                }
                self.running_pid = 202;
                TransitionEvent::Done
            }
            OwnerProxyTransition::CommitNewOwner => {
                self.events.push("commit_b");
                if self.commit_fails {
                    return failed("commit failed");
                }
                self.active_owner = "96002".to_string();
                TransitionEvent::Committed(owner_state("96002"))
            }
            OwnerProxyTransition::ApplyNewProxy { .. } => {
                self.events.push("apply_b");
                if self.apply_fails {
                    return failed("apply and direct compensation failed");
                }
                if self.apply_falls_back {
                    self.events.push("compensate_direct");
                    return TransitionEvent::Applied(ProxyApplyOutcome::DirectFallback {
                        message: "apply failed".to_owned(),
                    });
                }
                TransitionEvent::Applied(ProxyApplyOutcome::Applied)
            }
            OwnerProxyTransition::FinalizeNewOwner { .. } => {
                self.events.push("finalize_b");
                if self.finalize_fails {
                    return failed("finalize failed");
                }
                self.runtime_finalized = true;
                TransitionEvent::Done
            }
            OwnerProxyTransition::RollbackNewOwner { .. } => {
                self.events.push("rollback_b");
                if self.rollback_fails {
                    return failed("rollback failed");
                }
                self.active_owner = "96001".to_string();
                self.running_pid = 0;
                self.runtime_finalized = false;
                TransitionEvent::Done
            }
            OwnerProxyTransition::Finished { .. } => unreachable!(),
        }
    }

    fn run(&mut self) -> Result<(ActiveOwnerState, ProxyApplyOutcome), ServiceError> {
        let mut pending: Transition = OwnerProxyTransition::ClearPreviousProxy;
        loop {
            if let OwnerProxyTransition::Finished { result } = pending {
                return result;
            }
            let event = self.perform(&pending);
            pending = owner_proxy_transition(pending, event);
        }
    }
}

fn recording_transition() -> RecordingTransition {
    RecordingTransition {
        events: Vec::new(),
        active_owner: "96001".to_string(),
        running_pid: 101,
        clear_fails: false,
        compensation_fails: false,
        stop_fails: false,
        start_fails: false,
        commit_fails: false,
        apply_falls_back: false,
        apply_fails: false,
        rollback_fails: false,
        finalize_fails: false,
        runtime_finalized: false,
    }
}

#[test]
fn owner_proxy_transition_successful_takeover_has_exact_order() {
    let mut transition = recording_transition();

    let (_, outcome) = transition.run().expect("takeover must succeed");

    assert_eq!(
        transition.events,
        [
            "clear_proxy",
            "stop_a",
            "start_b",
            "commit_b",
            "apply_b",
            "finalize_b"
        ]
    );
    assert_eq!(transition.active_owner, "96002");
    assert_eq!(transition.running_pid, 202);
    assert!(transition.runtime_finalized);
    assert!(matches!(outcome, ProxyApplyOutcome::Applied));
}

#[test]
fn owner_proxy_transition_clear_failure_preserves_old_owner_and_core() {
    let mut transition = recording_transition();
    transition.clear_fails = true;

    let error = transition
        .run()
        .expect_err("proxy clear failure must abort takeover");

    assert_eq!(error.code, ServiceErrorCode::ProxyClearFailed);
    assert_eq!(
        error.message,
        "Failed to clear the previous owner's proxy: clear failed"
    );
    assert_eq!(transition.events, ["clear_proxy", "compensate_direct"]);
    assert_eq!(transition.active_owner, "96001");
    assert_eq!(transition.running_pid, 101);
}

#[test]
fn owner_proxy_transition_stop_failure_preserves_old_owner() {
    let mut transition = recording_transition();
    transition.stop_fails = true;

    let error = transition
        .run()
        .expect_err("core stop failure must abort takeover");

    assert_eq!(error.code, ServiceErrorCode::OwnerSwitchFailed);
    assert_eq!(transition.events, ["clear_proxy", "stop_a"]);
    assert_eq!(transition.active_owner, "96001");
    assert_eq!(transition.running_pid, 101);
}

#[test]
fn owner_proxy_transition_direct_fallback_keeps_new_owner_and_core() {
    let mut transition = recording_transition();
    transition.apply_falls_back = true;

    let (active, outcome) = transition.run().expect("takeover must succeed");

    assert_eq!(active.owner_key, "96002");
    assert_eq!(transition.active_owner, "96002");
    assert_eq!(transition.running_pid, 202);
    assert!(transition.runtime_finalized);
    match outcome {
        ProxyApplyOutcome::DirectFallback { message } => assert_eq!(message, "apply failed"),
        _ => panic!("the fallback must be reported"),
    }
}

#[test]
fn owner_proxy_transition_double_proxy_failure_rolls_back_new_owner() {
    let mut transition = recording_transition();
    transition.apply_fails = true;

    let error = transition
        .run()
        .expect_err("proxy apply and direct compensation failure must roll back");

    assert_eq!(error.code, ServiceErrorCode::ProxyApplyFailed);
    assert_eq!(
        transition.events,
        [
            "clear_proxy",
            "stop_a",
            "start_b",
            "commit_b",
            "apply_b",
            "rollback_b"
        ]
    );
    assert_eq!(transition.active_owner, "96001");
    assert_eq!(transition.running_pid, 0);
    assert!(!transition.runtime_finalized);
}

#[test]
fn owner_proxy_transition_reports_proxy_and_rollback_failures() {
    let mut transition = recording_transition();
    transition.apply_fails = true;
    transition.rollback_fails = true;

    let error = transition
        .run()
        .expect_err("rollback failure must be returned with the proxy failure");

    assert_eq!(error.code, ServiceErrorCode::ProxyApplyFailed);
    assert!(error
        .message
        .contains("apply and direct compensation failed"));
    assert!(error.message.contains("failed to roll back the new owner"));
    assert!(error.message.contains("rollback failed"));
    assert_eq!(transition.active_owner, "96002");
    assert_eq!(transition.running_pid, 202);
    assert!(!transition.runtime_finalized);
}

#[test]
fn takeover_failures_have_exact_messages() {
    let mut both = recording_transition();
    both.clear_fails = true;
    both.compensation_fails = true;
    assert_eq!(
        both.run().expect_err("refused").message,
        "Failed to clear the previous owner's proxy: clear failed; direct compensation failed: compensation failed"
    );

    let mut stop = recording_transition();
    stop.stop_fails = true;
    assert_eq!(
        stop.run().expect_err("refused").message,
        "Failed to stop the previous owner core: stop failed"
    );

    let mut start = recording_transition();
    start.start_fails = true;
    let error = start.run().expect_err("refused");
    assert_eq!(error.code, ServiceErrorCode::OwnerSwitchFailed);
    assert_eq!(error.message, "Failed to start owner core: start failed");
    assert_eq!(start.events, ["clear_proxy", "stop_a", "start_b"]);

    let mut commit = recording_transition();
    commit.commit_fails = true;
    assert_eq!(
        commit.run().expect_err("refused").message,
        "Failed to commit owner state: commit failed"
    );

    let mut finalize = recording_transition();
    finalize.finalize_fails = true;
    assert_eq!(
        finalize.run().expect_err("refused").message,
        "Failed to finalize owner runtime: finalize failed"
    );
}
