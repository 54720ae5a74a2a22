use clash_service_ipc::listener::{
    cleanup_ipc_path, cleanup_stale_ipc_socket, create_ipc_server, ensure_control_runtime_dir,
    make_ipc_dir, run_ipc_server, stop_ipc_server, ListenerAccess, ServerStart, ServerStartError,
    ServerStartEvent, ServerStop, SocketFinding, SocketStep, WINDOWS_CONTROL_PIPE_SDDL,
    WINDOWS_TEST_CONTROL_PIPE_SDDL,
};
use clash_service_ipc::native::Platform;
use clash_service_ipc::paths::{PathPart, ServicePath};

fn absolute(names: &[&str]) -> ServicePath {
    let mut parts = vec![PathPart::RootDir];
    for name in names {
        parts.push(PathPart::Normal(name.to_string()));
    }
    ServicePath { parts }
}

#[test]
fn windows_control_pipe_allows_authenticated_users_not_everyone() {
    assert!(WINDOWS_CONTROL_PIPE_SDDL.contains(";;;AU)"));
    assert!(!WINDOWS_CONTROL_PIPE_SDDL.contains(";;;WD)"));
    assert!(!WINDOWS_CONTROL_PIPE_SDDL.contains("GRGW;;;AU"));
    assert!(WINDOWS_CONTROL_PIPE_SDDL.contains("0x0012019b;;;AU"));
    assert!(!WINDOWS_CONTROL_PIPE_SDDL.contains("0x0012019f;;;AU"));
}

#[test]
fn unix_socket_is_open_to_all_and_windows_pipe_has_a_descriptor() {
    for platform in [Platform::Linux, Platform::Macos] {
        let setup = create_ipc_server(platform, false);
        assert_eq!(setup.write_timeout_ms, 25_000);
        assert!(matches!(setup.access, ListenerAccess::Mode(0o666)));
    }
    match create_ipc_server(Platform::Windows, false).access {
        ListenerAccess::SecurityDescriptor(text) => assert_eq!(text, WINDOWS_CONTROL_PIPE_SDDL),
        ListenerAccess::Mode(_) => panic!("a pipe has no mode"),
    }
    match create_ipc_server(Platform::Windows, true).access {
        ListenerAccess::SecurityDescriptor(text) => {
            assert_eq!(text, WINDOWS_TEST_CONTROL_PIPE_SDDL)
        }
        ListenerAccess::Mode(_) => panic!("a pipe has no mode"),
    }
}

#[test]
fn control_directory_is_the_parent_of_the_socket() {
    let socket = absolute(&["run", "service", "control.sock"]);
    let secured = make_ipc_dir(Platform::Linux, &socket).expect("a directory");
    assert!(secured.path.same(&absolute(&["run", "service"])));
    assert_eq!(secured.mode, 0o755);
    assert!(make_ipc_dir(Platform::Windows, &socket).is_none());
    assert!(make_ipc_dir(Platform::Linux, &absolute(&[])).is_none());
    assert_eq!(ensure_control_runtime_dir(absolute(&["run"])).mode, 0o755);
}

#[test]
fn only_a_socket_that_does_not_answer_is_removed() {
    assert_eq!(
        cleanup_stale_ipc_socket(Platform::Linux, SocketFinding::Exists(false)),
        SocketStep::LeaveInPlace
    );
    assert_eq!(
        cleanup_stale_ipc_socket(Platform::Linux, SocketFinding::Exists(true)),
        SocketStep::Probe { timeout_ms: 500 }
    );
    assert_eq!(
        cleanup_stale_ipc_socket(Platform::Macos, SocketFinding::Reachable(true)),
        SocketStep::LeaveInPlace
    );
    assert_eq!(
        cleanup_stale_ipc_socket(Platform::Macos, SocketFinding::Reachable(false)),
        SocketStep::Remove
    );
    assert_eq!(
        cleanup_stale_ipc_socket(Platform::Windows, SocketFinding::Reachable(false)),
        SocketStep::LeaveInPlace
    );
    assert!(cleanup_ipc_path(Platform::Linux, true));
    assert!(!cleanup_ipc_path(Platform::Linux, false));
    assert!(!cleanup_ipc_path(Platform::Windows, true));
}

#[test]
fn server_starts_step_by_step() {
    let mut pending = ServerStart::MakeDirectory;
    for _ in 0..3 {
        pending = run_ipc_server(pending, ServerStartEvent::Done);
    }
    assert!(matches!(pending, ServerStart::TakeServer));
    assert!(matches!(
        run_ipc_server(pending, ServerStartEvent::Taken(true)),
        ServerStart::Serving
    ));
    match run_ipc_server(ServerStart::TakeServer, ServerStartEvent::Taken(false)) {
        ServerStart::Refused {
            error: ServerStartError::Configuration(message),
        } => assert_eq!(message, "IPC server not initialized"),
        _ => panic!("a missing server must be refused"),
    }
    match run_ipc_server(
        ServerStart::CleanStaleSocket,
        ServerStartEvent::Failed("denied".to_string()),
    ) {
        ServerStart::Refused {
            error: ServerStartError::Failed(message),
        } => assert_eq!(message, "denied"),
        _ => panic!("a failure must be refused"),
    }
}

fn stop(platform: Platform, outcomes: &mut Vec<Result<(), String>>) -> (usize, Result<(), String>) {
    outcomes.reverse();
    let mut pending = ServerStop::StopCore;
    let mut steps = 0;
    loop {
        if let ServerStop::Finished { result } = pending {
            return (steps, result);
        }
        if let ServerStop::Pause { delay_ms } = pending {
            assert_eq!(delay_ms, 70);
        }
        let outcome = outcomes.pop().unwrap_or(Ok(()));
        pending = stop_ipc_server(platform, pending, outcome);
        steps += 1;
    }
}

#[test]
fn server_is_stopped_behind_its_core() {
    assert_eq!(stop(Platform::Linux, &mut Vec::new()), (5, Ok(())));
    assert_eq!(stop(Platform::Windows, &mut Vec::new()), (6, Ok(())));
    assert_eq!(
        stop(Platform::Linux, &mut vec![Err("core hangs".to_string())]),
        (1, Err("core hangs".to_string()))
    );
    assert_eq!(
        stop(
            Platform::Windows,
            &mut vec![Ok(()), Ok(()), Ok(()), Ok(()), Err("busy".to_string())]
        ),
        (5, Err("busy".to_string()))
    );
}

#[test]
fn stop_removes_the_socket_it_found() {
    let mut socket: Option<u32> = None;
    let start = |number: u32, socket: &mut Option<u32>| {
        let mut pending = ServerStart::MakeDirectory;
        while !matches!(pending, ServerStart::Serving) {
            let event = match pending {
                ServerStart::TakeServer => ServerStartEvent::Taken(true),
                _ => ServerStartEvent::Done,
            };
            pending = run_ipc_server(pending, event);
        }
        *socket = Some(number);
    };
    let stop_all = |core_stops: bool, socket: &mut Option<u32>| {
        let mut pending = ServerStop::StopCore;
        loop {
            let outcome = match pending {
                ServerStop::StopCore if !core_stops => Err("core hangs".to_string()),
                ServerStop::CleanPath => {
                    *socket = None;
                    Ok(())
                }
                _ => Ok(()),
            };
            pending = stop_ipc_server(Platform::Linux, pending, outcome);
            if let ServerStop::Finished { result } = pending {
                return result;
            }
        }
    };
    start(1, &mut socket);
    assert_eq!(
        stop_all(false, &mut socket),
        Err("core hangs".to_string())
    );
    assert_eq!(socket, Some(1));
    assert_eq!(stop_all(true, &mut socket), Ok(()));
    assert_eq!(socket, None);
    start(2, &mut socket);
    assert_eq!(socket, Some(2));
}
