use clash_service_ipc::supervisor::{
    begin_supervision, ipc_backoff_delay, run_ipc_supervisor_until_shutdown,
    ServiceLifecycleState, Supervisor, SupervisorEvent, SupervisorPhase,
    IPC_RESTART_WINDOW_NANOS,
};

const SECOND: u64 = 1_000_000_000;

fn running() -> Supervisor {
    let (supervisor, lifecycle) = begin_supervision();
    assert_eq!(lifecycle, ServiceLifecycleState::Starting);
    let (supervisor, told) = run_ipc_supervisor_until_shutdown(supervisor, SupervisorEvent::Done);
    assert_eq!(told, [ServiceLifecycleState::Running]);
    supervisor
}

/// Lets the server end at `now` and rebuilds it; hands back the pause before.
fn restart(supervisor: Supervisor, now: u64) -> (Supervisor, u64) {
    let (mut supervisor, told) =
        run_ipc_supervisor_until_shutdown(supervisor, SupervisorEvent::ServerEnded { now });
    assert_eq!(told, [ServiceLifecycleState::RecoveringIpc]);
    let mut pause = 0;
    if let SupervisorPhase::Pause { delay_ms } = supervisor.phase {
        pause = delay_ms;
        supervisor = run_ipc_supervisor_until_shutdown(supervisor, SupervisorEvent::Done).0;
    }
    assert!(matches!(supervisor.phase, SupervisorPhase::RebuildServer));
    let (supervisor, told) = run_ipc_supervisor_until_shutdown(supervisor, SupervisorEvent::Done);
    assert_eq!(told, [ServiceLifecycleState::Running]);
    (supervisor, pause)
}

#[test]
fn backoff_doubles_up_to_half_a_second() {
    let delays: Vec<u64> = (0..7).map(ipc_backoff_delay).collect();
    assert_eq!(delays, [0, 100, 200, 400, 500, 500, 500]);
    assert_eq!(ipc_backoff_delay(u32::MAX), 500);
}

#[test]
fn eleventh_restart_within_the_window_is_fatal() {
    let mut supervisor = running();
    let mut pauses = Vec::new();
    for i in 0..10 {
        let (next, pause) = restart(supervisor, 100 * SECOND + i * SECOND / 2);
        supervisor = next;
        pauses.push(pause);
    }
    assert_eq!(pauses, [0, 100, 200, 400, 500, 500, 500, 500, 500, 500]);
    let (supervisor, told) = run_ipc_supervisor_until_shutdown(
        supervisor,
        SupervisorEvent::ServerEnded { now: 105 * SECOND },
    );
    assert_eq!(
        told,
        [
            ServiceLifecycleState::RecoveringIpc,
            ServiceLifecycleState::Fatal
        ]
    );
    match supervisor.phase {
        SupervisorPhase::Finished { result } => {
            assert_eq!(
                result,
                Err("IPC server restarted 11 times in 10s".to_string())
            )
        }
        _ => panic!("the supervisor must give up"),
    }
}

#[test]
fn restarts_outside_the_window_do_not_count() {
    let mut supervisor = running();
    for i in 0..30 {
        supervisor = restart(supervisor, i * 2 * SECOND).0;
        assert!(supervisor.restarts.len() <= 5);
    }
    let quiet = 58 * SECOND + IPC_RESTART_WINDOW_NANOS;
    let (supervisor, pause) = restart(supervisor, quiet);
    assert_eq!(pause, 0);
    assert_eq!(supervisor.restarts, [quiet]);
    assert_eq!(supervisor.attempts, 1);
}

#[test]
fn restart_counts_up_to_the_edge_of_the_window() {
    let (supervisor, _) = restart(running(), 5 * SECOND);
    let (supervisor, pause) = restart(supervisor, 5 * SECOND + IPC_RESTART_WINDOW_NANOS - 1);
    assert_eq!(pause, 100);
    assert_eq!(supervisor.restarts.len(), 2);
}

#[test]
fn supervisor_ends_with_the_failure_of_a_step() {
    let (supervisor, _) = begin_supervision();
    let (supervisor, told) = run_ipc_supervisor_until_shutdown(
        supervisor,
        SupervisorEvent::Failed("in use".to_string()),
    );
    assert_eq!(told, [ServiceLifecycleState::Fatal]);
    assert!(matches!(
        supervisor.phase,
        SupervisorPhase::Finished { result: Err(message) }
            if message == "failed to start IPC server: in use"
    ));

    let (supervisor, _) = run_ipc_supervisor_until_shutdown(
        running(),
        SupervisorEvent::ServerEnded { now: 1 },
    );
    let (supervisor, told) = run_ipc_supervisor_until_shutdown(
        supervisor,
        SupervisorEvent::Failed("in use".to_string()),
    );
    assert_eq!(told, [ServiceLifecycleState::Fatal]);
    assert!(matches!(
        supervisor.phase,
        SupervisorPhase::Finished { result: Err(message) }
            if message == "failed to rebuild IPC server: in use"
    ));
}

#[test]
fn shutdown_stops_the_server() {
    let (supervisor, told) =
        run_ipc_supervisor_until_shutdown(running(), SupervisorEvent::ShutdownRequested);
    assert!(told.is_empty());
    assert!(matches!(supervisor.phase, SupervisorPhase::StopServer));
    let (supervisor, told) = run_ipc_supervisor_until_shutdown(supervisor, SupervisorEvent::Done);
    assert!(told.is_empty());
    assert!(matches!(
        supervisor.phase,
        SupervisorPhase::Finished { result: Ok(()) }
    ));

    let (supervisor, _) =
        run_ipc_supervisor_until_shutdown(running(), SupervisorEvent::ShutdownRequested);
    let (supervisor, _) = run_ipc_supervisor_until_shutdown(
        supervisor,
        SupervisorEvent::Failed("core hangs".to_string()),
    );
    assert!(matches!(
        supervisor.phase,
        SupervisorPhase::Finished { result: Err(message) } if message == "core hangs"
    ));
}
