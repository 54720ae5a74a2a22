use clash_service_ipc::assets::{canonical_regular_file, FileProbe};
use clash_service_ipc::error::{ServiceError, ServiceErrorCode};
use clash_service_ipc::paths::{PathPart, ServicePath};
use clash_service_ipc::unix_source::{
    open_verified_regular_file, AssetOpening, FileIdentity, OpenedFile, OpeningEvent,
};
use clash_service_ipc::windows_source::{
    self, terminated_path, windows_final_path, FinalPathStep, HandleEvent, HandleInformation,
    HandleOpening,
};

fn path(name: &str) -> ServicePath {
    ServicePath {
        parts: vec![PathPart::RootDir, PathPart::Normal(name.to_string())],
    }
}

fn identity(inode: u64) -> FileIdentity {
    FileIdentity { device: 1, inode }
}

fn opened(is_file: bool, inode: u64) -> OpeningEvent {
    OpeningEvent::OpenedInspected(OpenedFile {
        is_file,
        identity: identity(inode),
        length: 14,
    })
}

fn open(events: Vec<OpeningEvent>) -> Result<u64, ServiceError> {
    let mut pending = AssetOpening::Inspect;
    for event in events {
        pending = open_verified_regular_file(&path("asset"), pending, event);
        if let AssetOpening::Finished { result } = pending {
            return result;
        }
    }
    panic!("not finished")
}

fn all_right() -> Vec<OpeningEvent> {
    vec![
        OpeningEvent::Inspected(identity(7)),
        OpeningEvent::Opened,
        opened(true, 7),
        OpeningEvent::Resolved(path("asset")),
        OpeningEvent::Inspected(identity(7)),
    ]
}

fn refusal(at: usize, event: OpeningEvent) -> String {
    let mut events = all_right();
    events[at] = event;
    let error = open(events).expect_err("must be refused");
    assert_eq!(error.code, ServiceErrorCode::InvalidRuntimeAsset);
    error.message
}

#[test]
fn unchanged_asset_is_opened_with_its_length() {
    assert_eq!(open(all_right()).ok(), Some(14));
}

#[test]
fn opening_runtime_asset_rejects_symlinks() {
    let error = open(vec![
        OpeningEvent::Inspected(identity(7)),
        OpeningEvent::Failed("too many levels of symbolic links".to_string()),
    ])
    .expect_err("symlinked asset must be rejected");
    assert_eq!(error.code, ServiceErrorCode::InvalidRuntimeAsset);

    let link = FileProbe::Found {
        is_symlink: true,
        is_file: false,
    };
    let error = canonical_regular_file("runtime asset", true, &link, Ok(path("target")))
        .expect_err("symlinked asset must be rejected");
    assert_eq!(error.code, ServiceErrorCode::InvalidRuntimeAsset);
}

#[test]
fn replaced_asset_is_refused_with_its_reason() {
    let failed = || OpeningEvent::Failed("x".to_string());
    assert_eq!(refusal(0, failed()), "runtime asset is unavailable: x");
    assert_eq!(
        refusal(1, failed()),
        "failed to open runtime asset without following symlinks: x"
    );
    assert_eq!(
        refusal(2, failed()),
        "failed to inspect opened runtime asset: x"
    );
    assert_eq!(
        refusal(2, opened(true, 8)),
        "runtime asset changed between validation and open"
    );
    assert_eq!(
        refusal(2, opened(false, 7)),
        "runtime asset changed between validation and open"
    );
    assert_eq!(
        refusal(3, failed()),
        "failed to resolve opened runtime asset: x"
    );
    assert_eq!(
        refusal(3, OpeningEvent::Resolved(path("other"))),
        "opened runtime asset no longer resolves to the validated path"
    );
    assert_eq!(
        refusal(4, OpeningEvent::Inspected(identity(9))),
        "opened runtime asset no longer resolves to the validated path"
    );
    assert_eq!(
        refusal(4, failed()),
        "failed to inspect resolved runtime asset: x"
    );
}

fn disk_file(attributes: u32) -> HandleInformation {
    HandleInformation {
        known: true,
        file_type: 1,
        attributes,
        size_high: 1,
        size_low: 2,
    }
}

fn open_handle(information: HandleInformation, resolved: &str) -> Result<u64, String> {
    let mut pending = HandleOpening::Open;
    for event in [
        HandleEvent::Opened,
        HandleEvent::Inspected(information),
        HandleEvent::Resolved(resolved.to_string()),
    ] {
        pending = windows_source::open_verified_regular_file(r"C:\app\asset", pending, event);
        if let HandleOpening::Finished { result } = pending {
            return result.map_err(|error| {
                assert_eq!(error.code, ServiceErrorCode::InvalidRuntimeAsset);
                error.message
            });
        }
    }
    panic!("not finished")
}

#[test]
fn windows_asset_has_the_length_of_both_halves() {
    assert_eq!(
        open_handle(disk_file(0x20), r"\\?\C:\App\Asset"),
        Ok(4_294_967_298)
    );
    assert_eq!(
        open_handle(disk_file(0x20), r"\\?\C:\App\Other"),
        Err("runtime asset changed between validation and open".to_string())
    );
}

#[test]
fn opening_runtime_asset_rejects_windows_reparse_points() {
    let special = "opened runtime asset is not an ordinary disk file".to_string();
    assert_eq!(
        open_handle(disk_file(0x400), r"C:\app\asset"),
        Err(special.clone())
    );
    assert_eq!(
        open_handle(disk_file(0x10), r"C:\app\asset"),
        Err(special.clone())
    );
    let pipe = HandleInformation {
        file_type: 3,
        ..disk_file(0)
    };
    assert_eq!(open_handle(pipe, r"C:\app\asset"), Err(special.clone()));
    let unknown = HandleInformation {
        known: false,
        ..disk_file(0)
    };
    assert_eq!(open_handle(unknown, r"C:\app\asset"), Err(special));
}

#[test]
fn failures_to_open_a_windows_asset_are_told() {
    match windows_source::open_verified_regular_file(
        r"C:\app\asset",
        HandleOpening::Open,
        HandleEvent::Failed("denied".to_string()),
    ) {
        HandleOpening::Finished { result } => assert_eq!(
            result.expect_err("refused").message,
            "failed to open runtime asset without following reparse points: denied"
        ),
        _ => panic!("must be finished"),
    }
    assert_eq!(
        terminated_path(&vec![65, 0, 66]).expect_err("refused").message,
        "runtime asset path contains NUL"
    );
    assert_eq!(terminated_path(&vec![65, 66]).ok(), Some(vec![65, 66, 0]));
}

#[test]
fn final_path_gets_the_room_it_needs() {
    assert!(matches!(
        windows_final_path(512, 511, ""),
        FinalPathStep::Written { length: 511 }
    ));
    assert!(matches!(
        windows_final_path(512, 512, ""),
        FinalPathStep::Enlarge { capacity: 513 }
    ));
    assert!(matches!(
        windows_final_path(512, u32::MAX, ""),
        FinalPathStep::Enlarge {
            capacity: 4_294_967_296
        }
    ));
    match windows_final_path(512, 0, "gone") {
        FinalPathStep::Refused(error) => assert_eq!(
            error.message,
            "failed to resolve opened runtime asset: gone"
        ),
        _ => panic!("must be refused"),
    }
}
