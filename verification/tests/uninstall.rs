use clash_service_ipc::native::Platform;
use clash_service_ipc::uninstall::{
    execution_note, failure_note, failure_of, has_flag, maintenance_report, poll_step, poll_until,
    run_command, run_maintenance_if_requested, uninstall_old_service, uninstall_plan,
    uninstall_report, CommandOutcome, PollStep, ServiceNames, UninstallAction,
};
use std::cell::Cell;

#[test]
fn poll_until_retries_transient_state_before_success() {
    let attempts = Cell::new(0);
    let pauses = Cell::new(0);

    let result = poll_until(
        3,
        || {
            let next = attempts.get() + 1;
            attempts.set(next);
            Ok((next == 3).then_some("deleted"))
        },
        || pauses.set(pauses.get() + 1),
        "service deletion timed out",
    )
    .expect("must succeed");

    assert_eq!(result, "deleted");
    assert_eq!(attempts.get(), 3);
    assert_eq!(pauses.get(), 2);
}

#[test]
fn polling_ends_with_a_failure_or_in_time() {
    let pauses = Cell::new(0);
    let timed_out: Result<(), String> = poll_until(
        4,
        || Ok(None),
        || pauses.set(pauses.get() + 1),
        "timed out",
    );
    assert_eq!(timed_out, Err("timed out".to_string()));
    assert_eq!(pauses.get(), 3);

    let failed: Result<(), String> =
        poll_until(4, || Err("broken".to_string()), || unreachable!(), "timed out");
    assert_eq!(failed, Err("broken".to_string()));

    let never: Result<(), String> =
        poll_until(0, || unreachable!(), || unreachable!(), "timed out");
    assert_eq!(never, Err("timed out".to_string()));
}

#[test]
fn polling_takes_one_step_per_answer() {
    let step = |attempt, answer| poll_step::<u8>(3, "timed out", attempt, answer);
    assert!(matches!(step(0, Ok(None)), PollStep::Pause { next: 1 }));
    assert!(matches!(step(1, Ok(None)), PollStep::Pause { next: 2 }));
    match step(2, Ok(None)) {
        PollStep::Finished { result } => assert_eq!(result, Err("timed out".to_string())),
        PollStep::Pause { .. } => panic!("there is no probe left"),
    }
    for attempt in 0..3 {
        match step(attempt, Ok(Some(7))) {
            PollStep::Finished { result } => assert_eq!(result, Ok(7)),
            PollStep::Pause { .. } => panic!("a value ends the polling"),
        }
        match step(attempt, Err("broken".to_string())) {
            PollStep::Finished { result } => assert_eq!(result, Err("broken".to_string())),
            PollStep::Pause { .. } => panic!("a failure ends the polling"),
        }
    }
}

#[test]
fn a_late_failure_ends_the_polling() {
    let attempts = Cell::new(0);
    let pauses = Cell::new(0);
    let failed: Result<(), String> = poll_until(
        5,
        || {
            attempts.set(attempts.get() + 1);
            if attempts.get() == 4 {
                Err("broken".to_string())
            } else {
                Ok(None)
            }
        },
        || pauses.set(pauses.get() + 1),
        "timed out",
    );
    assert_eq!(failed, Err("broken".to_string()));
    assert_eq!(attempts.get(), 4);
    assert_eq!(pauses.get(), 3);
}

fn ended(success: bool, stdout: &[u8], stderr: &[u8]) -> CommandOutcome {
    CommandOutcome::Ended {
        success,
        status: "exit status: 3".to_string(),
        stdout: stdout.to_vec(),
        stderr: stderr.to_vec(),
    }
}

#[test]
fn commands_report_status_and_output() {
    assert_eq!(run_command("systemctl", &ended(true, b"", b"")), Ok(()));
    assert_eq!(
        run_command("systemctl", &ended(false, b"out", b"bad \xff byte")),
        Err(
            "Command 'systemctl' failed (status: exit status: 3):\nstdout: out\nstderr: bad \u{fffd} byte"
                .to_string()
        )
    );
    assert_eq!(
        run_command(
            "systemctl",
            &CommandOutcome::NotExecuted("not found".to_string())
        ),
        Err("Failed to execute 'systemctl': not found".to_string())
    );
    assert_eq!(
        failure_note(&ended(false, b"out", b"err")),
        Some("Command failed (status: exit status: 3):\nstdout: out\nstderr: err".to_string())
    );
    assert_eq!(failure_note(&ended(true, b"out", b"err")), None);
    assert_eq!(
        execution_note("systemctl", &vec!["stop".to_string(), "x".to_string()]),
        "Executing: systemctl stop x"
    );
    assert_eq!(execution_note("systemctl", &Vec::new()), "Executing: systemctl ");
}

#[test]
fn flags_are_found_among_the_arguments() {
    let args = vec!["uninstall".to_string(), "--debug".to_string()];
    assert!(has_flag(&args, "--debug"));
    assert!(!has_flag(&args, "--debu"));
    assert!(!run_maintenance_if_requested(&args));
    assert!(run_maintenance_if_requested(&vec![
        "--cleanup-stale-owners".to_string()
    ]));
}

#[test]
fn reports_count_directories() {
    assert_eq!(
        maintenance_report(3),
        "Removed 3 stale owner state directories"
    );
    assert_eq!(
        uninstall_report(1),
        "Service uninstalled successfully; removed 1 private state directory."
    );
    assert_eq!(
        uninstall_report(0),
        "Service uninstalled successfully; removed 0 private state directories."
    );
}

fn names() -> ServiceNames {
    ServiceNames {
        slug: "svc".to_string(),
        macos_service_id: "io.svc".to_string(),
    }
}

fn lines(plan: Vec<UninstallAction>) -> Vec<String> {
    plan.into_iter()
        .map(|action| match action {
            UninstallAction::UninstallOldService => "old".to_string(),
            UninstallAction::Run {
                program,
                args,
                required,
            } => format!("{program} {}{}", args.join(" "), if required { "!" } else { "" }),
            UninstallAction::RemoveFile { path, failure } => format!("file {path} | {failure}"),
            UninstallAction::RemoveDirectory { path, failure } => {
                format!("dir {path} | {failure}")
            }
            UninstallAction::PrepareInstallDirectory => "prepare".to_string(),
            UninstallAction::RemoveInstalled { name } => format!("installed {name}"),
            UninstallAction::RemoveWindowsService => "service".to_string(),
            UninstallAction::PurgeWindowsState => "purge".to_string(),
        })
        .collect()
}

#[test]
fn plans_stop_the_service_before_they_remove_it() {
    assert_eq!(
        lines(uninstall_plan(Platform::Linux, &names(), false)),
        [
            "systemctl stop svc.service",
            "systemctl disable svc.service",
            "file /etc/systemd/system/svc.service | Failed to remove service file: ",
            "systemctl daemon-reload",
            "prepare",
            "installed clash-service",
        ]
    );
    assert_eq!(
        lines(uninstall_plan(Platform::Macos, &names(), false)),
        [
            "old",
            "launchctl stop io.svc",
            "launchctl disable system/io.svc",
            "launchctl bootout system /Library/LaunchDaemons/io.svc.plist",
            "file /Library/LaunchDaemons/io.svc.plist | Failed to remove plist file: ",
            "dir /Library/PrivilegedHelperTools/io.svc.bundle | Failed to remove bundle directory: ",
        ]
    );
    assert_eq!(uninstall_plan(Platform::Macos, &names(), true).len(), 5);
    assert_eq!(
        lines(uninstall_plan(Platform::Windows, &names(), false)),
        ["service", "purge"]
    );
    assert_eq!(
        lines(uninstall_old_service()),
        [
            "launchctl stop io.github.clashverge.helper!",
            "launchctl bootout system /Library/LaunchDaemons/io.github.clashverge.helper.plist!",
            "launchctl disable system/io.github.clashverge.helper!",
            "file /Library/LaunchDaemons/io.github.clashverge.helper.plist | Failed to remove plist file: ",
            "file /Library/PrivilegedHelperTools/io.github.clashverge.helper | Failed to remove service binary: ",
        ]
    );
}

#[test]
fn failed_commands_do_not_end_an_uninstallation() {
    let failure = |platform, position: usize| {
        let plan = uninstall_plan(platform, &names(), false);
        failure_of(&plan[position], "\"/opt/clash-service\"", "x".to_string())
    };
    assert_eq!(failure(Platform::Linux, 0), None);
    assert_eq!(
        failure(Platform::Linux, 2),
        Some("Failed to remove service file: x".to_string())
    );
    assert_eq!(failure(Platform::Linux, 4), Some("x".to_string()));
    assert_eq!(
        failure(Platform::Linux, 5),
        Some("Failed to remove service binary \"/opt/clash-service\": x".to_string())
    );
    assert_eq!(failure(Platform::Macos, 0), None);
    assert_eq!(
        failure(Platform::Macos, 5),
        Some("Failed to remove bundle directory: x".to_string())
    );
    assert_eq!(failure(Platform::Windows, 0), Some("x".to_string()));
    assert_eq!(failure(Platform::Windows, 1), Some("x".to_string()));
    assert_eq!(
        failure_of(&uninstall_old_service()[0], "", "x".to_string()),
        Some("x".to_string())
    );
}
