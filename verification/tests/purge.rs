use clash_service_ipc::paths::{PathPart, ServicePath};
use clash_service_ipc::purge::{
    begin_purge_check, begin_state_purge, owned_windows_state_directories, program_data_root,
    purge_windows_service_state, validate_purge_target, PurgeCheck, PurgeEvent, PurgeOutcome,
    PurgePhase, PurgeRequest, PurgeTarget,
};

const SERVICE_SLUG: &str = "clash-service";
const LEGACY_SERVICE_SLUG: &str = "clash-verge-service";

fn owned() -> Vec<String> {
    owned_windows_state_directories(SERVICE_SLUG)
}

fn path(names: &[&str]) -> ServicePath {
    let mut parts = vec![PathPart::Prefix("C:".to_string()), PathPart::RootDir];
    for name in names {
        parts.push(PathPart::Normal(name.to_string()));
    }
    ServicePath { parts }
}

fn request(target: &[&str]) -> PurgeRequest {
    PurgeRequest {
        program_data: path(&["ProgramData"]),
        target: path(target),
        expected_name: SERVICE_SLUG.to_string(),
        program_data_shown: "\"C:\\\\ProgramData\"".to_string(),
        target_shown: "\"target\"".to_string(),
    }
}

fn found() -> PurgeEvent {
    PurgeEvent::Found {
        is_dir: true,
        attributes: 0x10,
    }
}

fn resolved(names: &[&str]) -> PurgeEvent {
    PurgeEvent::Resolved {
        path: path(names),
        shown: "\"resolved\"".to_string(),
    }
}

fn validate(request: &PurgeRequest, events: Vec<PurgeEvent>) -> Result<PurgeTarget, String> {
    let mut pending = begin_purge_check(request);
    for event in events {
        if let PurgeCheck::Finished { result } = pending {
            return result;
        }
        pending = validate_purge_target(request, pending, event);
    }
    match pending {
        PurgeCheck::Finished { result } => result,
        _ => panic!("not finished"),
    }
}

#[test]
fn uninstall_owns_only_the_current_service_state_directory() {
    assert_eq!(owned(), [SERVICE_SLUG]);
    assert!(!owned().contains(&LEGACY_SERVICE_SLUG.to_string()));
}

#[test]
fn purge_validation_accepts_only_the_exact_non_reparse_directory() {
    let right = request(&["ProgramData", SERVICE_SLUG]);
    assert_eq!(
        validate(
            &right,
            vec![
                found(),
                resolved(&["ProgramData"]),
                resolved(&["ProgramData", SERVICE_SLUG])
            ]
        ),
        Ok(PurgeTarget::Directory)
    );
    let escape = format!("{SERVICE_SLUG}-escape");
    assert!(validate(&request(&["ProgramData", &escape]), vec![found()]).is_err());
}

#[test]
fn purge_refusals_are_told() {
    let right = request(&["ProgramData", SERVICE_SLUG]);
    let failed = || PurgeEvent::Failed("x".to_string());
    assert_eq!(
        validate(&request(&["Windows", SERVICE_SLUG]), vec![]),
        Err("refusing to purge a non-service ProgramData path: \"target\"".to_string())
    );
    assert_eq!(
        validate(&right, vec![PurgeEvent::NotFound]),
        Ok(PurgeTarget::Missing)
    );
    assert_eq!(
        validate(&right, vec![failed()]),
        Err("failed to inspect \"target\": x".to_string())
    );
    for (is_dir, attributes) in [(false, 0), (true, 0x410)] {
        assert_eq!(
            validate(&right, vec![PurgeEvent::Found { is_dir, attributes }]),
            Err(
                "refusing to purge a non-directory or reparse-point service root: \"target\""
                    .to_string()
            )
        );
    }
    assert_eq!(
        validate(&right, vec![found(), failed()]),
        Err("failed to resolve ProgramData root \"C:\\\\ProgramData\": x".to_string())
    );
    assert_eq!(
        validate(&right, vec![found(), resolved(&["ProgramData"]), failed()]),
        Err("failed to resolve service root \"target\": x".to_string())
    );
    for escaped in [["Elsewhere", SERVICE_SLUG], ["ProgramData", "other"]] {
        assert_eq!(
            validate(
                &right,
                vec![found(), resolved(&["ProgramData"]), resolved(&escaped)]
            ),
            Err("resolved service root escaped ProgramData: \"resolved\"".to_string())
        );
    }
}

#[test]
fn purge_removes_what_is_there() {
    let purge = begin_state_purge(&owned());
    let purge = purge_windows_service_state(
        &owned(),
        "\"t\"",
        purge,
        PurgeOutcome::Validated(Ok(PurgeTarget::Directory)),
    );
    assert!(matches!(purge.phase, PurgePhase::Remove));
    let purge = purge_windows_service_state(&owned(), "\"t\"", purge, PurgeOutcome::Removed(Ok(())));
    assert!(matches!(purge.phase, PurgePhase::Finished { result: Ok(()) }));
    assert_eq!(purge.removed, [0]);

    let purge = purge_windows_service_state(
        &owned(),
        "\"t\"",
        begin_state_purge(&owned()),
        PurgeOutcome::Validated(Ok(PurgeTarget::Missing)),
    );
    assert!(matches!(purge.phase, PurgePhase::Finished { result: Ok(()) }));
    assert!(purge.removed.is_empty());
}

#[test]
fn purge_ends_with_its_first_failure() {
    let failure = |purge| match purge_windows_service_state(
        &owned(),
        "\"t\"",
        purge,
        PurgeOutcome::Removed(Err("busy".to_string())),
    )
    .phase
    {
        PurgePhase::Finished { result } => result,
        _ => panic!("must be finished"),
    };
    let purge = purge_windows_service_state(
        &owned(),
        "\"t\"",
        begin_state_purge(&owned()),
        PurgeOutcome::Validated(Ok(PurgeTarget::Directory)),
    );
    assert_eq!(
        failure(purge),
        Err("failed to remove service state \"t\": busy".to_string())
    );
    match purge_windows_service_state(
        &owned(),
        "\"t\"",
        begin_state_purge(&owned()),
        PurgeOutcome::Validated(Err("refused".to_string())),
    )
    .phase
    {
        PurgePhase::Finished { result } => assert_eq!(result, Err("refused".to_string())),
        _ => panic!("must be finished"),
    }
}

#[test]
fn program_data_has_a_usual_place() {
    assert_eq!(program_data_root(None), r"C:\ProgramData");
    assert_eq!(program_data_root(Some("D:\\Data".to_string())), r"D:\Data");
}
