//! The directories that the service keeps for an owner: private ones, and the
//! one of the core's endpoint, which is taken over only from root or the owner.
use crate::error::{invalid_asset, is_invalid_asset, ServiceError, ServiceErrorCode};
use crate::native::{Platform, S_IFDIR, S_IFMT};
use crate::paths::{
    parent_of, parents_lose_the_last_component, PathPart, PathPartView, ServicePath,
};
use crate::session::{AuthenticatedOwner, OwnerIdentity};
use crate::text::{chars_of, joined};
use vstd::prelude::*;
use vstd::string::*;

verus! {

/// The mode of a directory that only the service may use.
pub const PRIVATE_DIRECTORY_MODE: u32 = 0o700;

/// The mode of the directory that holds the endpoints of all owners.
pub const USERS_DIRECTORY_MODE: u32 = 0o755;

/// What securing the directory `shown` came to.
pub fn set_private_directory_permissions(shown: &str, outcome: Result<(), String>) -> (secured:
    Result<(), ServiceError>)
    ensures
        secured is Ok <==> outcome is Ok,
        secured matches Err(refusal) ==> is_invalid_asset(
            refusal,
            "failed to secure owner directory "@ + shown@ + ": "@ + outcome->Err_0@,
        ),
        securing_follows(shown@, outcome, secured),
{
    match outcome {
        Ok(()) => Ok(()),
        Err(error) => Err(
            invalid_asset(
                joined("failed to secure owner directory ", shown).concat(": ").concat(
                    error.as_str(),
                ),
            ),
        ),
    }
}

/// Whether a component holds the character that ends a path for the system.
pub open spec fn part_has_nul(part: PathPartView) -> bool {
    match part {
        PathPartView::Prefix(text) => text.contains('\0'),
        PathPartView::Normal(name) => name.contains('\0'),
        _ => false,
    }
}

/// Whether a path holds the character that ends a path for the system.
pub open spec fn path_has_nul(path: Seq<PathPartView>) -> bool {
    exists|i: int| 0 <= i < path.len() && #[trigger] part_has_nul(path[i])
}

fn text_has_nul(text: &str) -> (found: bool)
    ensures
        found == text@.contains('\0'),
{
    let chars: Vec<char> = chars_of(text);
    for i in 0..chars.len()
        invariant
            chars@ == text@,
            forall|j: int| 0 <= j < i ==> chars@[j] != '\0',
    {
        if chars[i] == '\0' {
            assert(text@[i as int] == '\0');
            return true;
        }
    }
    false
}

fn has_nul(path: &ServicePath) -> (found: bool)
    ensures
        found == path_has_nul(path@),
{
    for i in 0..path.parts.len()
        invariant
            forall|j: int| 0 <= j < i ==> !part_has_nul(path@[j]),
    {
        assert(path@[i as int] == path.parts@[i as int]@);
        let found: bool = match &path.parts[i] {
            PathPart::Prefix(text) => text_has_nul(text.as_str()),
            PathPart::Normal(name) => text_has_nul(name.as_str()),
            _ => false,
        };
        if found {
            assert(part_has_nul(path@[i as int]));
            return true;
        }
    }
    false
}

/// What the system tells of an open directory, and as whom the service runs.
#[derive(Clone, Copy, Debug, PartialEq, Eq, Structural)]
pub struct DirectoryStatus {
    pub inspected: bool,
    pub mode: u32,
    pub uid: u32,
    pub effective_uid: u32,
}

/// The preparation of the directory of an owner's endpoint.
#[derive(Debug)]
pub enum EndpointDirectory {
    SecureUsers { users: ServicePath, directory: ServicePath },
    Create { directory: ServicePath },
    Open { directory: ServicePath },
    Inspect { uid: u32 },
    /// The open directory is given to root, if asked for, and made private.
    Secure { give_to_root: bool },
    Close { result: Result<(), ServiceError> },
    Finished { result: Result<(), ServiceError> },
}

/// How a step of the preparation ended. A failure carries the text of its error.
#[derive(Debug)]
pub enum DirectoryEvent {
    Done,
    AlreadyExists,
    Inspected(DirectoryStatus),
    Failed(String),
}

/// Whether an event can end a step of the preparation.
pub open spec fn directory_event_fits(pending: EndpointDirectory, event: DirectoryEvent) -> bool {
    match pending {
        EndpointDirectory::Create { .. } => event is Done || event is AlreadyExists || event
            is Failed,
        EndpointDirectory::Inspect { .. } => event is Inspected,
        EndpointDirectory::Close { .. } => event is Done,
        EndpointDirectory::Finished { .. } => false,
        _ => event is Done || event is Failed,
    }
}

/// Whether a preparation has ended with this refusal.
pub open spec fn directory_refused(next: EndpointDirectory, message: Seq<char>) -> bool {
    next matches EndpointDirectory::Finished { result: Err(refusal) } && is_invalid_asset(
        refusal,
        message,
    )
}

/// Whether an open directory is to be closed, with this refusal.
pub open spec fn closes_refused(next: EndpointDirectory, message: Seq<char>) -> bool {
    next matches EndpointDirectory::Close { result: Err(refusal) } && is_invalid_asset(
        refusal,
        message,
    )
}

/// Whether an open directory may be taken over: it is a directory, and it belongs
/// to root or to the owner, or in a test build to whoever runs the service.
pub open spec fn may_be_taken(test_build: bool, uid: u32, status: DirectoryStatus) -> bool {
    &&& status.inspected
    &&& status.mode & 0o170000 == 0o040000
    &&& {
        ||| status.uid == 0
        ||| status.uid == uid
        ||| test_build && status.uid == status.effective_uid
    }
}

/// How the preparation of the directory of `ipc_path` begins: there is nothing to
/// do for a pipe.
pub open spec fn directory_begins(
    platform: Platform,
    ipc_path: Seq<PathPartView>,
    first: EndpointDirectory,
) -> bool {
    if platform == Platform::Windows {
        first == (EndpointDirectory::Finished { result: Ok(()) })
    } else {
        match parent_of(ipc_path) {
            None => directory_refused(first, "owner IPC path has no parent directory"@),
            Some(inner) => match parent_of(inner) {
                None => directory_refused(first, "owner IPC directory has no users root"@),
                Some(outer) => first matches EndpointDirectory::SecureUsers { users, directory }
                    && users@ == outer && directory@ == inner,
            },
        }
    }
}

/// What follows when the pending step of the preparation ends.
pub open spec fn directory_follows(
    test_build: bool,
    owner: AuthenticatedOwner,
    pending: EndpointDirectory,
    event: DirectoryEvent,
    next: EndpointDirectory,
) -> bool {
    match (pending, event) {
        (EndpointDirectory::SecureUsers { .. }, DirectoryEvent::Failed(error)) => directory_refused(
            next,
            "failed to secure IPC users directory: "@ + error@,
        ),
        (EndpointDirectory::SecureUsers { directory, .. }, _) => next == (
        EndpointDirectory::Create { directory }),
        (EndpointDirectory::Create { .. }, DirectoryEvent::Failed(error)) => directory_refused(
            next,
            "failed to create owner IPC directory: "@ + error@,
        ),
        (EndpointDirectory::Create { directory }, _) => if path_has_nul(directory@) {
            directory_refused(next, "owner IPC directory contains NUL"@)
        } else {
            next == (EndpointDirectory::Open { directory })
        },
        (EndpointDirectory::Open { .. }, DirectoryEvent::Failed(error)) => directory_refused(
            next,
            "failed to open owner IPC directory: "@ + error@,
        ),
        (EndpointDirectory::Open { .. }, _) => match owner.identity {
            OwnerIdentity::Unix { uid, .. } => next == (EndpointDirectory::Inspect { uid }),
            OwnerIdentity::Windows { .. } => closes_refused(
                next,
                "Unix IPC directory requires a Unix owner"@,
            ),
        },
        (EndpointDirectory::Inspect { uid }, DirectoryEvent::Inspected(status)) => if may_be_taken(
            test_build,
            uid,
            status,
        ) {
            next == (EndpointDirectory::Secure { give_to_root: status.effective_uid == 0 })
        } else {
            closes_refused(next, "owner IPC directory has an unexpected owner or file type"@)
        },
        (EndpointDirectory::Secure { .. }, DirectoryEvent::Failed(error)) => closes_refused(
            next,
            "failed to secure owner IPC directory: "@ + error@,
        ),
        (EndpointDirectory::Secure { .. }, _) => next == (EndpointDirectory::Close {
            result: Ok(()),
        }),
        (EndpointDirectory::Close { result }, _) => next == (EndpointDirectory::Finished {
            result,
        }),
        _ => false,
    }
}

fn refuse(message: String) -> (next: EndpointDirectory)
    ensures
        directory_refused(next, message@),
{
    EndpointDirectory::Finished { result: Err(invalid_asset(message)) }
}

fn close_refused(message: String) -> (next: EndpointDirectory)
    ensures
        closes_refused(next, message@),
{
    EndpointDirectory::Close { result: Err(invalid_asset(message)) }
}

/// Begins to prepare the directory of the endpoint at `ipc_path`.
pub fn begin_owner_ipc_directory(platform: Platform, ipc_path: &ServicePath) -> (first:
    EndpointDirectory)
    ensures
        directory_begins(platform, ipc_path@, first),
{
    if platform == Platform::Windows {
        return EndpointDirectory::Finished { result: Ok(()) };
    }
    match ipc_path.parent() {
        None => refuse("owner IPC path has no parent directory".to_owned()),
        Some(directory) => match directory.parent() {
            None => refuse("owner IPC directory has no users root".to_owned()),
            Some(users) => EndpointDirectory::SecureUsers { users, directory },
        },
    }
}

/// Decides what follows when the pending step of preparing the directory of an
/// owner's endpoint has ended.
pub fn prepare_owner_ipc_directory(
    test_build: bool,
    owner: &AuthenticatedOwner,
    pending: EndpointDirectory,
    event: DirectoryEvent,
) -> (next: EndpointDirectory)
    requires
        directory_event_fits(pending, event),
    ensures
        directory_follows(test_build, *owner, pending, event, next),
{
    match event {
        DirectoryEvent::Failed(error) => match pending {
            EndpointDirectory::SecureUsers { .. } => refuse(
                joined("failed to secure IPC users directory: ", error.as_str()),
            ),
            EndpointDirectory::Create { .. } => refuse(
                joined("failed to create owner IPC directory: ", error.as_str()),
            ),
            EndpointDirectory::Open { .. } => refuse(
                joined("failed to open owner IPC directory: ", error.as_str()),
            ),
            _ => close_refused(joined("failed to secure owner IPC directory: ", error.as_str())),
        },
        DirectoryEvent::Inspected(status) => match pending {
            EndpointDirectory::Inspect { uid } => {
                let test_process_owned: bool = test_build && status.uid == status.effective_uid;
                if !status.inspected || status.mode & S_IFMT != S_IFDIR || (status.uid != 0
                    && status.uid != uid && !test_process_owned) {
                    close_refused(
                        "owner IPC directory has an unexpected owner or file type".to_owned(),
                    )
                } else {
                    EndpointDirectory::Secure { give_to_root: status.effective_uid == 0 }
                }
            },
            other => other,
        },
        _ => match pending {
            EndpointDirectory::SecureUsers { directory, .. } => EndpointDirectory::Create {
                directory,
            },
            EndpointDirectory::Create { directory } => {
                if has_nul(&directory) {
                    refuse("owner IPC directory contains NUL".to_owned())
                } else {
                    EndpointDirectory::Open { directory }
                }
            },
            EndpointDirectory::Open { .. } => match &owner.identity {
                OwnerIdentity::Unix { uid, .. } => EndpointDirectory::Inspect { uid: *uid },
                OwnerIdentity::Windows { .. } => close_refused(
                    "Unix IPC directory requires a Unix owner".to_owned(),
                ),
            },
            EndpointDirectory::Secure { .. } => EndpointDirectory::Close { result: Ok(()) },
            EndpointDirectory::Close { result } => EndpointDirectory::Finished { result },
            other => other,
        },
    }
}

/// Whether the directory is open at a step.
pub open spec fn is_open_at(pending: EndpointDirectory) -> bool {
    pending is Inspect || pending is Secure || pending is Close
}

/// A directory that was opened is closed, whatever happens to it: the preparation
/// ends, and leaves the steps at which it is open, only by closing it.
pub proof fn opened_directory_is_closed(
    test_build: bool,
    owner: AuthenticatedOwner,
    pending: EndpointDirectory,
    event: DirectoryEvent,
    next: EndpointDirectory,
)
    requires
        directory_event_fits(pending, event),
        directory_follows(test_build, owner, pending, event, next),
        is_open_at(pending),
    ensures
        is_open_at(next) || pending is Close && next is Finished,
{
}

/// A directory is changed only where it may be taken over, and it is given away
/// only by a service that runs as root.
pub proof fn only_own_directory_is_secured(
    test_build: bool,
    owner: AuthenticatedOwner,
    pending: EndpointDirectory,
    event: DirectoryEvent,
    give_to_root: bool,
)
    requires
        directory_event_fits(pending, event),
        directory_follows(
            test_build,
            owner,
            pending,
            event,
            EndpointDirectory::Secure { give_to_root },
        ),
    ensures
        pending matches EndpointDirectory::Inspect { uid } && event matches DirectoryEvent::Inspected(
            status,
        ) && may_be_taken(test_build, uid, status) && give_to_root == (status.effective_uid == 0),
{
}

/// Whether securing the directory `shown` came to this.
pub open spec fn securing_follows(
    shown: Seq<char>,
    outcome: Result<(), String>,
    secured: Result<(), ServiceError>,
) -> bool {
    &&& secured is Ok <==> outcome is Ok
    &&& secured matches Err(refusal) ==> is_invalid_asset(
        refusal,
        "failed to secure owner directory "@ + shown + ": "@ + outcome->Err_0@,
    )
}

/// A private directory is secured where the system secures it; a failure is that of an
/// invalid asset, and tells the directory and the system's own words.
pub proof fn unsecured_directory_is_told(
    shown: Seq<char>,
    error: String,
    secured: Result<(), ServiceError>,
)
    requires
        securing_follows(shown, Err(error), secured),
    ensures
        secured matches Err(refusal) && refusal.code == ServiceErrorCode::InvalidRuntimeAsset
            && refusal.message@ == "failed to secure owner directory "@ + shown + ": "@ + error@,
{
}

/// What may be taken over: something that could be inspected, whose file type, the four
/// bits from the thirteenth on, is that of a directory, and which belongs to root or to
/// the owner. A test build may also take over what belongs to whom it runs as.
pub proof fn directories_of_root_and_owner_may_be_taken(
    test_build: bool,
    uid: u32,
    status: DirectoryStatus,
)
    ensures
        may_be_taken(test_build, uid, status) ==> status.inspected && (status.mode as int / 4096)
            % 16 == 4,
        status.inspected && (status.mode as int / 4096) % 16 == 4 ==> {
            &&& status.uid == 0 || status.uid == uid ==> may_be_taken(test_build, uid, status)
            &&& status.uid != 0 && status.uid != uid ==> (may_be_taken(test_build, uid, status)
                <==> test_build && status.uid == status.effective_uid)
        },
{
    let mode = status.mode;
    assert((mode & 0o170000 == 0o040000) == ((mode / 4096u32) % 16 == 4)) by (bit_vector);
}

/// For a socket two directories are prepared: the one that it lies in, and the one around
/// that, for all users. There is nothing to prepare for a pipe, and a path that is too
/// short is refused.
pub proof fn socket_lies_in_the_directory_of_its_owner(
    platform: Platform,
    users: Seq<PathPartView>,
    owner: Seq<char>,
    socket: Seq<char>,
    first: EndpointDirectory,
)
    requires
        platform != Platform::Windows,
        directory_begins(
            platform,
            users.push(PathPartView::Normal(owner)).push(PathPartView::Normal(socket)),
            first,
        ),
    ensures
        first matches EndpointDirectory::SecureUsers { users: outer, directory } && outer@ == users
            && directory@ == users.push(PathPartView::Normal(owner)),
{
    let inner = users.push(PathPartView::Normal(owner));
    parents_lose_the_last_component(inner, PathPartView::Normal(socket));
    parents_lose_the_last_component(users, PathPartView::Normal(owner));
}

/// A path without two directories around it is refused, and nothing is prepared on
/// Windows.
pub proof fn short_socket_paths_are_refused(
    path: Seq<PathPartView>,
    first: EndpointDirectory,
    platform: Platform,
)
    requires
        directory_begins(platform, path, first),
        path.len() < 2 || platform == Platform::Windows,
    ensures
        platform == Platform::Windows ==> (first matches EndpointDirectory::Finished { result }
            && result is Ok),
        platform != Platform::Windows ==> (first matches EndpointDirectory::Finished {
            result: Err(refusal),
        } && refusal.code == ServiceErrorCode::InvalidRuntimeAsset && refusal.message@ == (
        if path.len() == 0 || path.last() is RootDir || path.last() is Prefix {
            "owner IPC path has no parent directory"@
        } else {
            "owner IPC directory has no users root"@
        })),
{
}

/// Whether `stages` are those of one preparation of `directory`, `events` being how its
/// steps ended.
pub open spec fn is_directory_preparation(
    test_build: bool,
    owner: AuthenticatedOwner,
    directory: ServicePath,
    stages: Seq<EndpointDirectory>,
    events: Seq<DirectoryEvent>,
) -> bool {
    &&& stages.len() == events.len() + 1
    &&& stages[0] matches EndpointDirectory::SecureUsers { directory: prepared, .. } && prepared
        == directory
    &&& forall|i: int|
        #![trigger events[i]]
        0 <= i < events.len() ==> {
            &&& directory_event_fits(stages[i], events[i])
            &&& directory_follows(test_build, owner, stages[i], events[i], stages[i + 1])
        }
}

/// What preparing the directory of an owner's endpoint comes to. The users' directory is
/// secured; the owner's own is created, unless it is there, opened, looked at, secured
/// and closed. It succeeds where all of this does and the directory may be taken over;
/// else the refusal tells what was wrong.
pub proof fn preparing_the_directory_tells_what_failed(
    test_build: bool,
    owner: AuthenticatedOwner,
    directory: ServicePath,
    stages: Seq<EndpointDirectory>,
    events: Seq<DirectoryEvent>,
    result: Result<(), ServiceError>,
)
    requires
        is_directory_preparation(test_build, owner, directory, stages, events),
        stages.last() == (EndpointDirectory::Finished { result }),
    ensures
        ({
            let told = |message: Seq<char>|
                result matches Err(refusal) && refusal.code
                    == ServiceErrorCode::InvalidRuntimeAsset && refusal.message@ == message;
            let behind = |prefix: Seq<char>, at: int|
                events[at] matches DirectoryEvent::Failed(error) && told(prefix + error@);
            &&& 0 < events.len() <= 6
            &&& events.len() == 1 ==> behind("failed to secure IPC users directory: "@, 0)
            &&& events.len() == 2 ==> stages[1] == (EndpointDirectory::Create { directory }) && (
            behind("failed to create owner IPC directory: "@, 1) || path_has_nul(directory@)
                && told("owner IPC directory contains NUL"@))
            &&& events.len() == 3 ==> behind("failed to open owner IPC directory: "@, 2)
            &&& events.len() > 2 ==> stages[2] == (EndpointDirectory::Open { directory })
                && !path_has_nul(directory@) && (events[1] is Done || events[1] is AlreadyExists)
            &&& events.len() == 4 ==> owner.identity is Windows && told(
                "Unix IPC directory requires a Unix owner"@,
            )
            &&& events.len() == 5 ==> owner.identity is Unix && told(
                "owner IPC directory has an unexpected owner or file type"@,
            )
            &&& events.len() > 4 ==> (events[3] matches DirectoryEvent::Inspected(status)
                && owner.identity matches OwnerIdentity::Unix { uid, .. } && (may_be_taken(
                test_build,
                uid,
                status,
            ) <==> events.len() == 6) && (events.len() == 6 ==> stages[4] == (
            EndpointDirectory::Secure { give_to_root: status.effective_uid == 0 })))
            &&& events.len() == 6 ==> if events[4] is Done {
                result is Ok
            } else {
                behind("failed to secure owner IPC directory: "@, 4)
            }
        }),
{
    assert(events.len() > 0);
    let _ = events[0];
    if events.len() > 1 {
        let _ = events[1];
    }
    if events.len() > 2 {
        let _ = events[2];
    }
    if events.len() > 3 {
        let _ = events[3];
    }
    if events.len() > 4 {
        let _ = events[4];
    }
    if events.len() > 5 {
        let _ = events[5];
    }
    if events.len() > 6 {
        let _ = events[6];
    }
}

/// A path holds the character that ends it for the system exactly where that character
/// stands anywhere in a name or a prefix of it.
pub proof fn nul_is_found_anywhere(path: Seq<PathPartView>, i: int, text: Seq<char>, k: int)
    ensures
        0 <= i < path.len() && (path[i] == PathPartView::Normal(text) || path[i]
            == PathPartView::Prefix(text)) && 0 <= k < text.len() && text[k] as int == 0
            ==> path_has_nul(path),
        path_has_nul(path) ==> exists|j: int|
            0 <= j < path.len() && match #[trigger] path[j] {
                PathPartView::Normal(name) => exists|c: int|
                    0 <= c < name.len() && (#[trigger] name[c]) as int == 0,
                PathPartView::Prefix(name) => exists|c: int|
                    0 <= c < name.len() && (#[trigger] name[c]) as int == 0,
                _ => false,
            },
{
    if 0 <= i < path.len() && (path[i] == PathPartView::Normal(text) || path[i]
        == PathPartView::Prefix(text)) && 0 <= k < text.len() && text[k] as int == 0 {
        assert(text[k] == '\0');
        assert(text.contains('\0'));
        assert(part_has_nul(path[i]));
    }
    if path_has_nul(path) {
        let j = choose|j: int| 0 <= j < path.len() && #[trigger] part_has_nul(path[j]);
        let name = match path[j] {
            PathPartView::Normal(name) => name,
            PathPartView::Prefix(name) => name,
            _ => Seq::empty(),
        };
        let c = choose|c: int| 0 <= c < name.len() && name[c] == '\0';
        assert(name[c] as int == 0);
    }
}

} // verus!
