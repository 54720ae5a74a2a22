use clash_service_ipc::error::{ServiceError, ServiceErrorCode};
use clash_service_ipc::native::Platform;
use clash_service_ipc::owner_directory::{
    begin_owner_ipc_directory, prepare_owner_ipc_directory, set_private_directory_permissions,
    DirectoryEvent, DirectoryStatus, EndpointDirectory,
};
use clash_service_ipc::paths::{PathPart, ServicePath};
use clash_service_ipc::session::{AuthenticatedOwner, OwnerIdentity};

fn path(names: &[&str]) -> ServicePath {
    let mut parts = vec![PathPart::RootDir];
    for name in names {
        parts.push(PathPart::Normal(name.to_string()));
    }
    ServicePath { parts }
}

fn owner(identity: OwnerIdentity) -> AuthenticatedOwner {
    AuthenticatedOwner {
        key: "501".to_string(),
        identity,
        app_data_root: path(&[]),
    }
}

fn unix_owner() -> AuthenticatedOwner {
    owner(OwnerIdentity::Unix { uid: 501, gid: 20 })
}

fn status(mode: u32, uid: u32, effective_uid: u32) -> DirectoryEvent {
    DirectoryEvent::Inspected(DirectoryStatus {
        inspected: true,
        mode,
        uid,
        effective_uid,
    })
}

/// What a preparation came to, whether the directory was given to root, and
/// whether an opened directory was closed.
fn run(
    test_build: bool,
    owner: &AuthenticatedOwner,
    ipc_path: &ServicePath,
    events: Vec<DirectoryEvent>,
) -> (Result<(), ServiceError>, Option<bool>, bool) {
    let mut pending = begin_owner_ipc_directory(Platform::Linux, ipc_path);
    let mut given = None;
    let mut closed = false;
    for event in events {
        if let EndpointDirectory::Secure { give_to_root } = pending {
            given = Some(give_to_root);
        }
        closed = closed || matches!(pending, EndpointDirectory::Close { .. });
        pending = prepare_owner_ipc_directory(test_build, owner, pending, event);
        if let EndpointDirectory::Finished { result } = pending {
            return (result, given, closed);
        }
    }
    panic!("not finished")
}

fn done(count: usize, rest: Vec<DirectoryEvent>) -> Vec<DirectoryEvent> {
    let mut events: Vec<DirectoryEvent> = (0..count).map(|_| DirectoryEvent::Done).collect();
    events.extend(rest);
    events
}

fn message(test_build: bool, owner: &AuthenticatedOwner, events: Vec<DirectoryEvent>) -> String {
    let (result, _, _) = run(test_build, owner, &path(&["run", "users", "501", "sock"]), events);
    let error = result.expect_err("must be refused");
    assert_eq!(error.code, ServiceErrorCode::InvalidRuntimeAsset);
    error.message
}

#[test]
fn endpoint_directory_is_secured_and_closed() {
    let socket = path(&["run", "users", "501", "sock"]);
    match begin_owner_ipc_directory(Platform::Macos, &socket) {
        EndpointDirectory::SecureUsers { users, directory } => {
            assert!(users.same(&path(&["run", "users"])));
            assert!(directory.same(&path(&["run", "users", "501"])));
        }
        _ => panic!("the users directory comes first"),
    }
    for (event, effective_uid, uid) in [
        (DirectoryEvent::Done, 0, 0),
        (DirectoryEvent::AlreadyExists, 0, 501),
        (DirectoryEvent::Done, 501, 501),
    ] {
        let events = vec![
            DirectoryEvent::Done,
            event,
            DirectoryEvent::Done,
            status(0o040755, uid, effective_uid),
            DirectoryEvent::Done,
            DirectoryEvent::Done,
        ];
        let (result, given, closed) = run(false, &unix_owner(), &socket, events);
        assert!(result.is_ok());
        assert_eq!(given, Some(effective_uid == 0));
        assert!(closed);
    }
}

#[test]
fn foreign_directories_are_left_alone() {
    let unexpected = "owner IPC directory has an unexpected owner or file type";
    let inspect = |event| done(3, vec![event, DirectoryEvent::Done]);
    let who = unix_owner();
    assert_eq!(message(false, &who, inspect(status(0o040755, 777, 0))), unexpected);
    assert_eq!(message(false, &who, inspect(status(0o100644, 501, 0))), unexpected);
    assert_eq!(message(false, &who, inspect(status(0o120777, 0, 0))), unexpected);
    assert_eq!(message(false, &who, inspect(status(0o040755, 777, 777))), unexpected);
    let unseen = DirectoryEvent::Inspected(DirectoryStatus {
        inspected: false,
        mode: 0o040755,
        uid: 0,
        effective_uid: 0,
    });
    assert_eq!(message(false, &who, inspect(unseen)), unexpected);

    let events = done(
        3,
        vec![
            status(0o040755, 777, 777),
            DirectoryEvent::Done,
            DirectoryEvent::Done,
        ],
    );
    let (result, given, _) = run(true, &who, &path(&["run", "users", "501", "sock"]), events);
    assert!(result.is_ok());
    assert_eq!(given, Some(false));
}

#[test]
fn failures_to_prepare_the_directory_are_told() {
    let who = unix_owner();
    let failed = || DirectoryEvent::Failed("x".to_string());
    assert_eq!(
        message(false, &who, vec![failed()]),
        "failed to secure IPC users directory: x"
    );
    assert_eq!(
        message(false, &who, done(1, vec![failed()])),
        "failed to create owner IPC directory: x"
    );
    assert_eq!(
        message(false, &who, done(2, vec![failed()])),
        "failed to open owner IPC directory: x"
    );
    assert_eq!(
        message(
            false,
            &who,
            done(3, vec![status(0o040700, 0, 0), failed(), DirectoryEvent::Done])
        ),
        "failed to secure owner IPC directory: x"
    );
    let windows = owner(OwnerIdentity::Windows {
        sid: "S-1-5".to_string(),
    });
    assert_eq!(
        message(false, &windows, done(4, vec![])),
        "Unix IPC directory requires a Unix owner"
    );
    let (result, _, _) = run(
        false,
        &who,
        &path(&["run", "us\0ers", "501", "sock"]),
        done(2, vec![]),
    );
    assert_eq!(
        result.expect_err("refused").message,
        "owner IPC directory contains NUL"
    );
}

#[test]
fn endpoint_needs_two_directories_above_it() {
    let refused = |names: &[&str]| match begin_owner_ipc_directory(Platform::Linux, &path(names)) {
        EndpointDirectory::Finished { result } => result.expect_err("refused").message,
        _ => panic!("must be refused"),
    };
    assert_eq!(refused(&[]), "owner IPC path has no parent directory");
    assert_eq!(refused(&["sock"]), "owner IPC directory has no users root");
    assert!(matches!(
        begin_owner_ipc_directory(Platform::Windows, &path(&[])),
        EndpointDirectory::Finished { result: Ok(()) }
    ));
}

#[test]
fn private_directories_report_what_failed() {
    assert!(set_private_directory_permissions("\"/d\"", Ok(())).is_ok());
    let error = set_private_directory_permissions("\"/d\"", Err("denied".to_string()))
        .expect_err("must fail");
    assert_eq!(error.code, ServiceErrorCode::InvalidRuntimeAsset);
    assert_eq!(
        error.message,
        "failed to secure owner directory \"/d\": denied"
    );
}
