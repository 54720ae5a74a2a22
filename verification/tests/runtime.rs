use clash_service_ipc::error::ServiceErrorCode;
use clash_service_ipc::native::Platform;
use clash_service_ipc::runtime::{
    create_runtime_generation, generation_name, inspect_path, names_runtime,
    remove_runtime_directory, runtime_cleanup_retry_delay, ClashConfig, CoreConfig,
    CreationOutcome, DropAction, GenerationStep, PathProbe, PreparedRuntime, PreparedRuntimeState,
    RemovalOutcome, RemovalStep, WriterConfig,
};

fn prepared() -> PreparedRuntime {
    PreparedRuntime {
        clash_config: ClashConfig {
            core_config: CoreConfig {
                core_path: "/app/mihomo".to_string(),
                core_ipc_path: "/run/core.sock".to_string(),
                config_path: "/state/runtime/config.yaml".to_string(),
                config_dir: "/state/runtime".to_string(),
            },
            log_config: WriterConfig {
                rest: (),
                directory: "/state/logs".to_string(),
            },
        },
        runtime: "/state/runtime".to_string(),
        stale_runtime_paths: vec!["/state/old".to_string()],
        state: PreparedRuntimeState::Unused,
    }
}

#[test]
fn given_up_runtime_goes_only_where_no_core_can_use_it() {
    let mut runtime = prepared();
    assert!(runtime.is_unused());
    assert_eq!(runtime.drop_action(), DropAction::RemoveDirectory);
    runtime.mark_may_be_in_use();
    assert!(!runtime.is_unused());
    assert_eq!(runtime.drop_action(), DropAction::LeaveDirectory);
    runtime.begin_discard();
    assert_eq!(runtime.drop_action(), DropAction::RemoveDirectory);
    assert_eq!(runtime.commit(), ["/state/old"]);
    assert_eq!(runtime.drop_action(), DropAction::Nothing);
}

#[test]
fn discard_finalizes_or_reports() {
    let mut runtime = prepared();
    assert!(runtime
        .discard_after_core_stopped(Ok(()), "\"/state/runtime\"", "missing")
        .is_ok());
    assert_eq!(runtime.drop_action(), DropAction::Nothing);

    let mut runtime = prepared();
    runtime.mark_may_be_in_use();
    let error = runtime
        .discard_after_core_stopped(
            Err("denied".to_string()),
            "\"/state/runtime\"",
            "directory",
        )
        .expect_err("must fail");
    assert_eq!(error.code, ServiceErrorCode::InvalidRuntimeAsset);
    assert_eq!(
        error.message,
        "failed to discard prepared runtime \"/state/runtime\": denied; state=directory"
    );
    assert_eq!(runtime.drop_action(), DropAction::RemoveDirectory);
}

#[test]
fn paths_are_described_in_words() {
    let found = |is_symlink, is_dir, is_file| {
        inspect_path(&PathProbe::Found {
            is_symlink,
            is_dir,
            is_file,
        })
    };
    assert_eq!(found(true, true, false), "symlink");
    assert_eq!(found(false, true, false), "directory");
    assert_eq!(found(false, false, true), "file");
    assert_eq!(found(false, false, false), "other");
    assert_eq!(inspect_path(&PathProbe::Missing), "missing");
    assert_eq!(
        inspect_path(&PathProbe::Inaccessible("denied".to_string())),
        "inaccessible: denied"
    );
}

#[test]
fn runtime_names_are_recognized() {
    for name in [
        "runtime",
        "runtime.backup",
        "runtime.generation-1-2-3",
        "runtime.generation-",
        "runtime.staging-x",
    ] {
        assert!(names_runtime(name), "{name}");
    }
    for name in ["runtime2", "runtime.backups", "runtime.generation", "logs", ""] {
        assert!(!names_runtime(name), "{name}");
    }
}

#[test]
fn transient_windows_failures_are_retried_six_times() {
    for code in [5, 32, 145, 303] {
        let delays: Vec<Option<u64>> = (0..7)
            .map(|index| runtime_cleanup_retry_delay(Platform::Windows, Some(code), index))
            .collect();
        assert_eq!(
            delays,
            [
                Some(25),
                Some(50),
                Some(100),
                Some(200),
                Some(400),
                Some(800),
                None
            ]
        );
    }
    assert_eq!(runtime_cleanup_retry_delay(Platform::Windows, Some(2), 0), None);
    assert_eq!(runtime_cleanup_retry_delay(Platform::Windows, None, 0), None);
    assert_eq!(runtime_cleanup_retry_delay(Platform::Linux, Some(5), 0), None);
}

#[test]
fn missing_directory_counts_as_removed() {
    let failed = RemovalOutcome::Failed {
        raw_os_error: Some(32),
    };
    assert_eq!(
        remove_runtime_directory(Platform::Linux, 0, RemovalOutcome::Removed),
        RemovalStep::Done
    );
    assert_eq!(
        remove_runtime_directory(Platform::Linux, 0, RemovalOutcome::NotFound),
        RemovalStep::Done
    );
    assert_eq!(
        remove_runtime_directory(Platform::Windows, 2, failed),
        RemovalStep::RetryAfter { delay_ms: 100 }
    );
    assert_eq!(
        remove_runtime_directory(Platform::Windows, 6, failed),
        RemovalStep::GiveUp
    );
    assert_eq!(
        remove_runtime_directory(Platform::Macos, 0, failed),
        RemovalStep::GiveUp
    );
}

#[test]
fn generations_are_named_by_process_time_and_sequence() {
    assert_eq!(
        generation_name(42, 1_700_000_000_000_000_000, 0),
        "runtime.generation-42-1700000000000000000-0"
    );
    assert_eq!(
        generation_name(u32::MAX, u128::MAX, u64::MAX),
        "runtime.generation-4294967295-340282366920938463463374607431768211455-18446744073709551615"
    );
    assert!(generation_name(1, 23, 4) != generation_name(12, 3, 4));
}

#[test]
fn taken_generation_names_are_replaced_up_to_the_limit() {
    for attempts in 0..15 {
        assert!(matches!(
            create_runtime_generation(attempts, "\"x\"", CreationOutcome::AlreadyExists),
            GenerationStep::TryAnother { attempts: next } if next == attempts + 1
        ));
    }
    match create_runtime_generation(15, "\"x\"", CreationOutcome::AlreadyExists) {
        GenerationStep::Refused(error) => assert_eq!(
            error.message,
            "failed to allocate a unique runtime generation after 16 attempts; last_collision=Some(\"x\")"
        ),
        _ => panic!("must be refused"),
    }
    match create_runtime_generation(
        3,
        "\"x\"",
        CreationOutcome::Failed {
            error: "denied".to_string(),
            found: "missing".to_string(),
        },
    ) {
        GenerationStep::Refused(error) => assert_eq!(
            error.message,
            "failed to create runtime generation \"x\": denied; state=missing"
        ),
        _ => panic!("must be refused"),
    }
    assert!(matches!(
        create_runtime_generation(0, "\"x\"", CreationOutcome::Created),
        GenerationStep::Created
    ));
}
