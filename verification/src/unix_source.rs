//! The opening of a runtime asset on Unix: the file that was opened has to be the
//! one that was validated, and has to be found under its path still.
use crate::error::{invalid_asset, is_invalid_asset, ServiceError, ServiceErrorCode};
use crate::paths::ServicePath;
use crate::text::joined;
use vstd::prelude::*;
use vstd::string::*;

verus! {

/// By what a file system knows a file.
#[derive(Clone, Copy, Debug, PartialEq, Eq, Structural)]
pub struct FileIdentity {
    pub device: u64,
    pub inode: u64,
}

/// What is known of a file that was opened.
#[derive(Clone, Copy, Debug, PartialEq, Eq, Structural)]
pub struct OpenedFile {
    pub is_file: bool,
    pub identity: FileIdentity,
    pub length: u64,
}

/// The opening of an asset.
#[derive(Debug)]
pub enum AssetOpening {
    Inspect,
    Open { expected: FileIdentity },
    InspectOpened { expected: FileIdentity },
    Resolve { opened: OpenedFile },
    InspectResolved { opened: OpenedFile, resolved: ServicePath },
    /// The length of the file that was opened, or why it may not be used.
    Finished { result: Result<u64, ServiceError> },
}

/// How a step of the opening ended. A failure carries the text of its error.
#[derive(Debug)]
pub enum OpeningEvent {
    Inspected(FileIdentity),
    Opened,
    OpenedInspected(OpenedFile),
    Resolved(ServicePath),
    Failed(String),
}

/// Whether an event can end a step of the opening.
pub open spec fn opening_event_fits(pending: AssetOpening, event: OpeningEvent) -> bool {
    match pending {
        AssetOpening::Inspect => event is Inspected || event is Failed,
        AssetOpening::Open { .. } => event is Opened || event is Failed,
        AssetOpening::InspectOpened { .. } => event is OpenedInspected || event is Failed,
        AssetOpening::Resolve { .. } => event is Resolved || event is Failed,
        AssetOpening::InspectResolved { .. } => event is Inspected || event is Failed,
        AssetOpening::Finished { .. } => false,
    }
}

/// Whether an opening has ended with this refusal.
pub open spec fn opening_refused(next: AssetOpening, message: Seq<char>) -> bool {
    next matches AssetOpening::Finished { result: Err(refusal) } && is_invalid_asset(
        refusal,
        message,
    )
}

/// What follows when the pending step of the opening of `path` ends.
pub open spec fn opening_follows(
    path: ServicePath,
    pending: AssetOpening,
    event: OpeningEvent,
    next: AssetOpening,
) -> bool {
    match (pending, event) {
        (AssetOpening::Inspect, OpeningEvent::Inspected(expected)) => next == (AssetOpening::Open {
            expected,
        }),
        (AssetOpening::Inspect, OpeningEvent::Failed(error)) => opening_refused(
            next,
            "runtime asset is unavailable: "@ + error@,
        ),
        (AssetOpening::Open { expected }, OpeningEvent::Opened) => next == (
        AssetOpening::InspectOpened { expected }),
        (AssetOpening::Open { .. }, OpeningEvent::Failed(error)) => opening_refused(
            next,
            "failed to open runtime asset without following symlinks: "@ + error@,
        ),
        (AssetOpening::InspectOpened { expected }, OpeningEvent::OpenedInspected(opened)) => if opened.is_file
            && opened.identity == expected {
            next == (AssetOpening::Resolve { opened })
        } else {
            opening_refused(next, "runtime asset changed between validation and open"@)
        },
        (AssetOpening::InspectOpened { .. }, OpeningEvent::Failed(error)) => opening_refused(
            next,
            "failed to inspect opened runtime asset: "@ + error@,
        ),
        (AssetOpening::Resolve { opened }, OpeningEvent::Resolved(resolved)) => next == (
        AssetOpening::InspectResolved { opened, resolved }),
        (AssetOpening::Resolve { .. }, OpeningEvent::Failed(error)) => opening_refused(
            next,
            "failed to resolve opened runtime asset: "@ + error@,
        ),
        (
            AssetOpening::InspectResolved { opened, resolved },
            OpeningEvent::Inspected(identity),
        ) => if resolved@ == path@ && identity == opened.identity {
            next == (AssetOpening::Finished { result: Ok(opened.length) })
        } else {
            opening_refused(next, "opened runtime asset no longer resolves to the validated path"@)
        },
        (AssetOpening::InspectResolved { .. }, OpeningEvent::Failed(error)) => opening_refused(
            next,
            "failed to inspect resolved runtime asset: "@ + error@,
        ),
        _ => false,
    }
}

fn refuse(lead: &str, error: &str) -> (next: AssetOpening)
    ensures
        opening_refused(next, lead@ + error@),
{
    AssetOpening::Finished { result: Err(invalid_asset(joined(lead, error))) }
}

/// Decides what follows when the pending step of the opening of `path` has ended.
pub fn open_verified_regular_file(
    path: &ServicePath,
    pending: AssetOpening,
    event: OpeningEvent,
) -> (next: AssetOpening)
    requires
        opening_event_fits(pending, event),
    ensures
        opening_follows(*path, pending, event, next),
{
    match event {
        OpeningEvent::Failed(error) => match pending {
            AssetOpening::Inspect => refuse("runtime asset is unavailable: ", error.as_str()),
            AssetOpening::Open { .. } => refuse(
                "failed to open runtime asset without following symlinks: ",
                error.as_str(),
            ),
            AssetOpening::InspectOpened { .. } => refuse(
                "failed to inspect opened runtime asset: ",
                error.as_str(),
            ),
            AssetOpening::Resolve { .. } => refuse(
                "failed to resolve opened runtime asset: ",
                error.as_str(),
            ),
            _ => refuse("failed to inspect resolved runtime asset: ", error.as_str()),
        },
        OpeningEvent::Opened => match pending {
            AssetOpening::Open { expected } => AssetOpening::InspectOpened { expected },
            other => other,
        },
        OpeningEvent::OpenedInspected(opened) => match pending {
            AssetOpening::InspectOpened { expected } => {
                if opened.is_file && opened.identity == expected {
                    AssetOpening::Resolve { opened }
                } else {
                    AssetOpening::Finished {
                        result: Err(
                            invalid_asset(
                                "runtime asset changed between validation and open".to_owned(),
                            ),
                        ),
                    }
                }
            },
            other => other,
        },
        OpeningEvent::Resolved(resolved) => match pending {
            AssetOpening::Resolve { opened } => AssetOpening::InspectResolved { opened, resolved },
            other => other,
        },
        OpeningEvent::Inspected(identity) => match pending {
            AssetOpening::Inspect => AssetOpening::Open { expected: identity },
            AssetOpening::InspectResolved { opened, resolved } => {
                if resolved.same(path) && identity == opened.identity {
                    AssetOpening::Finished { result: Ok(opened.length) }
                } else {
                    AssetOpening::Finished {
                        result: Err(
                            invalid_asset(
                                "opened runtime asset no longer resolves to the validated path".to_owned(),
                            ),
                        ),
                    }
                }
            },
            other => other,
        },
    }
}

/// Whether `stages` are those of one opening of `path`, `events` being how its
/// steps ended.
pub open spec fn is_opening(
    path: ServicePath,
    stages: Seq<AssetOpening>,
    events: Seq<OpeningEvent>,
) -> bool {
    &&& stages.len() == events.len() + 1
    &&& stages[0] is Inspect
    &&& forall|i: int|
        #![trigger events[i]]
        0 <= i < events.len() ==> {
            &&& opening_event_fits(stages[i], events[i])
            &&& opening_follows(path, stages[i], events[i], stages[i + 1])
        }
}

/// An asset is used only where one and the same ordinary file was found before it
/// was opened, was opened, and was found afterwards under the very path; its
/// length is that of the file that was opened.
pub proof fn opened_asset_is_the_validated_one(
    path: ServicePath,
    stages: Seq<AssetOpening>,
    events: Seq<OpeningEvent>,
    length: u64,
)
    requires
        is_opening(path, stages, events),
        stages.last() == (AssetOpening::Finished { result: Ok(length) }),
    ensures
        events.len() == 5,
        events[2] matches OpeningEvent::OpenedInspected(opened) && {
            &&& opened.is_file
            &&& opened.length == length
            &&& events[0] == OpeningEvent::Inspected(opened.identity)
            &&& events[4] == OpeningEvent::Inspected(opened.identity)
        },
        events[3] matches OpeningEvent::Resolved(resolved) && resolved@ == path@,
{
    assert(events.len() > 0);
    let _ = events[0];
    if events.len() > 1 {
        let _ = events[1];
    }
    if events.len() > 2 {
        let _ = events[2];
    }
    if events.len() > 3 {
        let _ = events[3];
    }
    if events.len() > 4 {
        let _ = events[4];
    }
    if events.len() > 5 {
        let _ = events[5];
    }
}

/// An asset is used wherever one and the same ordinary file was found before it was
/// opened, was opened, and was found afterwards under the very path, whatever the file
/// system calls it and however long it is.
pub proof fn unchanged_asset_is_opened(
    path: ServicePath,
    stages: Seq<AssetOpening>,
    events: Seq<OpeningEvent>,
    opened: OpenedFile,
    resolved: ServicePath,
)
    requires
        is_opening(path, stages, events),
        opened.is_file,
        resolved@ == path@,
        events == seq![
            OpeningEvent::Inspected(opened.identity),
            OpeningEvent::Opened,
            OpeningEvent::OpenedInspected(opened),
            OpeningEvent::Resolved(resolved),
            OpeningEvent::Inspected(opened.identity),
        ],
    ensures
        stages.last() == (AssetOpening::Finished { result: Ok(opened.length) }),
{
    let _ = events[0];
    let _ = events[1];
    let _ = events[2];
    let _ = events[3];
    let _ = events[4];
}

/// What is refused is told as an invalid asset, by the step at which it was found out
/// and with the error of that step.
pub proof fn opening_refusal_tells_the_step(
    path: ServicePath,
    pending: AssetOpening,
    event: OpeningEvent,
    next: AssetOpening,
)
    requires
        opening_event_fits(pending, event),
        opening_follows(path, pending, event, next),
    ensures
        ({
            let told = |message: Seq<char>|
                next matches AssetOpening::Finished { result: Err(refusal) } && refusal.code
                    == ServiceErrorCode::InvalidRuntimeAsset && refusal.message@ == message;
            match event {
                OpeningEvent::Failed(error) => match pending {
                    AssetOpening::Inspect => told("runtime asset is unavailable: "@ + error@),
                    AssetOpening::Open { .. } => told(
                        "failed to open runtime asset without following symlinks: "@ + error@,
                    ),
                    AssetOpening::InspectOpened { .. } => told(
                        "failed to inspect opened runtime asset: "@ + error@,
                    ),
                    AssetOpening::Resolve { .. } => told(
                        "failed to resolve opened runtime asset: "@ + error@,
                    ),
                    _ => told("failed to inspect resolved runtime asset: "@ + error@),
                },
                OpeningEvent::OpenedInspected(opened) => pending matches AssetOpening::InspectOpened {
                    expected,
                } && (!opened.is_file || opened.identity.device != expected.device
                    || opened.identity.inode != expected.inode ==> told(
                    "runtime asset changed between validation and open"@,
                )),
                OpeningEvent::Inspected(identity) => pending matches AssetOpening::InspectResolved {
                    opened,
                    resolved,
                } ==> (resolved@ != path@ || identity.device != opened.identity.device
                    || identity.inode != opened.identity.inode ==> told(
                    "opened runtime asset no longer resolves to the validated path"@,
                )),
                _ => true,
            }
        }),
{
}

} // verus!
