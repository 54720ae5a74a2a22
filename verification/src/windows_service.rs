//! The removal of the Windows service: it is stopped, deleted, and awaited until
//! the service manager does not know it any more.
use crate::text::{debug_form, joined, quoted};
use vstd::prelude::*;
use vstd::string::*;

verus! {

/// The service is not known.
pub const ERROR_SERVICE_DOES_NOT_EXIST: i32 = 1060;

/// The service is not running.
pub const ERROR_SERVICE_NOT_ACTIVE: i32 = 1062;

/// The service is going to be deleted.
pub const ERROR_SERVICE_MARKED_FOR_DELETE: i32 = 1072;

/// How often the service is looked at before it is given up.
pub const POLL_ATTEMPTS: usize = 200;

/// The pause between two looks, in milliseconds.
pub const POLL_INTERVAL_MS: u64 = 100;

/// A failure that the service manager reports: the code of Windows, where it has
/// one, and its text.
#[derive(Debug)]
pub struct ServiceManagerError {
    pub raw_os_error: Option<i32>,
    pub text: String,
}

/// Whether a failure has this code.
pub fn has_raw_error(error: &ServiceManagerError, code: i32) -> (has: bool)
    ensures
        has == (error.raw_os_error == Some(code)),
{
    match error.raw_os_error {
        Some(raw) => raw == code,
        None => false,
    }
}

/// Whether a failure tells that the service is gone.
pub open spec fn tells_absent(error: ServiceManagerError) -> bool {
    error.raw_os_error == Some(ERROR_SERVICE_DOES_NOT_EXIST)
}

/// Whether a failure tells that the service is about to go.
pub open spec fn tells_marked(error: ServiceManagerError) -> bool {
    error.raw_os_error == Some(ERROR_SERVICE_MARKED_FOR_DELETE)
}

/// The removal of a service.
#[derive(Debug)]
pub enum ServiceRemoval {
    Connect,
    Open,
    QueryStatus,
    Stop,
    AwaitStop { attempt: usize },
    PauseStop { attempt: usize },
    Delete,
    AwaitDeletion { attempt: usize },
    PauseDeletion { attempt: usize },
    /// Whether there was a service to remove.
    Finished { result: Result<bool, String> },
}

/// How a step of the removal ended.
#[derive(Debug)]
pub enum RemovalEvent {
    Done,
    Status { stopped: bool },
    Failed(ServiceManagerError),
}

/// Whether an event can end a step of the removal.
pub open spec fn removal_event_fits(pending: ServiceRemoval, event: RemovalEvent) -> bool {
    match pending {
        ServiceRemoval::QueryStatus => event is Status || event is Failed,
        ServiceRemoval::AwaitStop { .. } => event is Status || event is Failed,
        ServiceRemoval::PauseStop { .. } => event is Done,
        ServiceRemoval::PauseDeletion { .. } => event is Done,
        ServiceRemoval::Finished { .. } => false,
        _ => event is Done || event is Failed,
    }
}

impl ServiceRemoval {
    /// What holds of a removal at every step: no more looks than there may be.
    pub open spec fn well_formed(&self) -> bool {
        match self {
            ServiceRemoval::AwaitStop { attempt } => *attempt < POLL_ATTEMPTS,
            ServiceRemoval::PauseStop { attempt } => attempt + 1 < POLL_ATTEMPTS,
            ServiceRemoval::AwaitDeletion { attempt } => *attempt < POLL_ATTEMPTS,
            ServiceRemoval::PauseDeletion { attempt } => attempt + 1 < POLL_ATTEMPTS,
            _ => true,
        }
    }
}

/// Whether a removal has ended with this text.
pub open spec fn removal_failed(next: ServiceRemoval, message: Seq<char>) -> bool {
    next matches ServiceRemoval::Finished { result: Err(text) } && text@ == message
}

/// What follows a look at a service that is being deleted and is still there.
pub open spec fn deletion_goes_on(name: Seq<char>, attempt: usize, next: ServiceRemoval) -> bool {
    if attempt + 1 < POLL_ATTEMPTS {
        next == (ServiceRemoval::PauseDeletion { attempt })
    } else {
        removal_failed(
            next,
            "timed out waiting for Windows service "@ + debug_form(name) + " to be deleted"@,
        )
    }
}

/// What follows when a look at a service that is being deleted ends: once it is
/// not known any more it is removed.
pub open spec fn deletion_follows(
    name: Seq<char>,
    attempt: usize,
    event: RemovalEvent,
    next: ServiceRemoval,
) -> bool {
    match event {
        RemovalEvent::Failed(error) => if tells_absent(error) {
            next == (ServiceRemoval::Finished { result: Ok(true) })
        } else if tells_marked(error) {
            deletion_goes_on(name, attempt, next)
        } else {
            next == (ServiceRemoval::Finished { result: Err(error.text) })
        },
        _ => deletion_goes_on(name, attempt, next),
    }
}

/// What follows when the pending step of the removal of the service `name` ends.
pub open spec fn removal_follows(
    name: Seq<char>,
    pending: ServiceRemoval,
    event: RemovalEvent,
    next: ServiceRemoval,
) -> bool {
    match (pending, event) {
        (ServiceRemoval::Connect, RemovalEvent::Failed(error)) => next == (
        ServiceRemoval::Finished { result: Err(error.text) }),
        (ServiceRemoval::Connect, _) => next is Open,
        (ServiceRemoval::Open, RemovalEvent::Failed(error)) => if tells_absent(error) {
            next == (ServiceRemoval::Finished { result: Ok(false) })
        } else if tells_marked(error) {
            next == (ServiceRemoval::AwaitDeletion { attempt: 0 })
        } else {
            next == (ServiceRemoval::Finished { result: Err(error.text) })
        },
        (ServiceRemoval::Open, _) => next is QueryStatus,
        (ServiceRemoval::QueryStatus, RemovalEvent::Failed(error)) => next == (
        ServiceRemoval::Finished { result: Err(error.text) }),
        (ServiceRemoval::QueryStatus, RemovalEvent::Status { stopped }) => if stopped {
            next is Delete
        } else {
            next is Stop
        },
        (ServiceRemoval::Stop, RemovalEvent::Failed(error)) => if error.raw_os_error == Some(
            ERROR_SERVICE_NOT_ACTIVE,
        ) {
            next == (ServiceRemoval::AwaitStop { attempt: 0 })
        } else {
            next == (ServiceRemoval::Finished { result: Err(error.text) })
        },
        (ServiceRemoval::Stop, _) => next == (ServiceRemoval::AwaitStop { attempt: 0 }),
        (ServiceRemoval::AwaitStop { .. }, RemovalEvent::Failed(error)) => if tells_absent(error)
            || tells_marked(error) {
            next is Delete
        } else {
            next == (ServiceRemoval::Finished { result: Err(error.text) })
        },
        (ServiceRemoval::AwaitStop { attempt }, RemovalEvent::Status { stopped }) => if stopped {
            next is Delete
        } else if attempt + 1 == POLL_ATTEMPTS {
            removal_failed(
                next,
                "timed out waiting for Windows service "@ + debug_form(name) + " to stop"@,
            )
        } else {
            next == (ServiceRemoval::PauseStop { attempt })
        },
        (ServiceRemoval::PauseStop { attempt }, _) => next == (ServiceRemoval::AwaitStop {
            attempt: (attempt + 1) as usize,
        }),
        (ServiceRemoval::Delete, RemovalEvent::Failed(error)) => if tells_absent(error)
            || tells_marked(error) {
            next == (ServiceRemoval::AwaitDeletion { attempt: 0 })
        } else {
            next == (ServiceRemoval::Finished { result: Err(error.text) })
        },
        (ServiceRemoval::Delete, _) => next == (ServiceRemoval::AwaitDeletion { attempt: 0 }),
        (ServiceRemoval::AwaitDeletion { attempt }, _) => deletion_follows(
            name,
            attempt,
            event,
            next,
        ),
        (ServiceRemoval::PauseDeletion { attempt }, _) => next == (ServiceRemoval::AwaitDeletion {
            attempt: (attempt + 1) as usize,
        }),
        _ => false,
    }
}

/// Decides what follows when a look at a service that is being deleted has ended.
pub fn wait_for_service_deletion(service_name: &str, attempt: usize, event: RemovalEvent) -> (next:
    ServiceRemoval)
    requires
        attempt < POLL_ATTEMPTS,
    ensures
        deletion_follows(service_name@, attempt, event, next),
        next.well_formed(),
{
    if let RemovalEvent::Failed(error) = event {
        if has_raw_error(&error, ERROR_SERVICE_DOES_NOT_EXIST) {
            return ServiceRemoval::Finished { result: Ok(true) };
        }
        if !has_raw_error(&error, ERROR_SERVICE_MARKED_FOR_DELETE) {
            return ServiceRemoval::Finished { result: Err(error.text) };
        }
    }
    if attempt + 1 < POLL_ATTEMPTS {
        return ServiceRemoval::PauseDeletion { attempt };
    }
    let shown: String = quoted(service_name);
    ServiceRemoval::Finished {
        result: Err(
            joined("timed out waiting for Windows service ", shown.as_str()).concat(
                " to be deleted",
            ),
        ),
    }
}

fn fail(error: ServiceManagerError) -> (next: ServiceRemoval)
    ensures
        next == (ServiceRemoval::Finished { result: Err(error.text) }),
{
    ServiceRemoval::Finished { result: Err(error.text) }
}

fn is_going(error: &ServiceManagerError) -> (going: bool)
    ensures
        going == (tells_absent(*error) || tells_marked(*error)),
{
    has_raw_error(error, ERROR_SERVICE_DOES_NOT_EXIST) || has_raw_error(
        error,
        ERROR_SERVICE_MARKED_FOR_DELETE,
    )
}

/// Decides what follows when the pending step of the removal of a service has
/// ended. A removal ends with `true` where the service was there, also where it
/// was going to be deleted already, and with `false` where it was not.
pub fn remove_windows_service_if_exists(
    service_name: &str,
    pending: ServiceRemoval,
    event: RemovalEvent,
) -> (next: ServiceRemoval)
    requires
        pending.well_formed(),
        removal_event_fits(pending, event),
    ensures
        removal_follows(service_name@, pending, event, next),
        next.well_formed(),
{
    match pending {
        ServiceRemoval::Connect => match event {
            RemovalEvent::Failed(error) => fail(error),
            _ => ServiceRemoval::Open,
        },
        ServiceRemoval::Open => match event {
            RemovalEvent::Failed(error) => {
                if has_raw_error(&error, ERROR_SERVICE_DOES_NOT_EXIST) {
                    ServiceRemoval::Finished { result: Ok(false) }
                } else if has_raw_error(&error, ERROR_SERVICE_MARKED_FOR_DELETE) {
                    ServiceRemoval::AwaitDeletion { attempt: 0 }
                } else {
                    fail(error)
                }
            },
            _ => ServiceRemoval::QueryStatus,
        },
        ServiceRemoval::QueryStatus => match event {
            RemovalEvent::Failed(error) => fail(error),
            RemovalEvent::Status { stopped: true } => ServiceRemoval::Delete,
            _ => ServiceRemoval::Stop,
        },
        ServiceRemoval::Stop => match event {
            RemovalEvent::Failed(error) => {
                if has_raw_error(&error, ERROR_SERVICE_NOT_ACTIVE) {
                    ServiceRemoval::AwaitStop { attempt: 0 }
                } else {
                    fail(error)
                }
            },
            _ => ServiceRemoval::AwaitStop { attempt: 0 },
        },
        ServiceRemoval::AwaitStop { attempt } => match event {
            RemovalEvent::Failed(error) => {
                if is_going(&error) {
                    ServiceRemoval::Delete
                } else {
                    fail(error)
                }
            },
            RemovalEvent::Status { stopped: true } => ServiceRemoval::Delete,
            _ => {
                if attempt + 1 == POLL_ATTEMPTS {
                    let shown: String = quoted(service_name);
                    ServiceRemoval::Finished {
                        result: Err(
                            joined("timed out waiting for Windows service ", shown.as_str()).concat(
                                " to stop",
                            ),
                        ),
                    }
                } else {
                    ServiceRemoval::PauseStop { attempt }
                }
            },
        },
        ServiceRemoval::PauseStop { attempt } => ServiceRemoval::AwaitStop { attempt: attempt + 1 },
        ServiceRemoval::Delete => match event {
            RemovalEvent::Failed(error) => {
                if is_going(&error) {
                    ServiceRemoval::AwaitDeletion { attempt: 0 }
                } else {
                    fail(error)
                }
            },
            _ => ServiceRemoval::AwaitDeletion { attempt: 0 },
        },
        ServiceRemoval::AwaitDeletion { attempt } => wait_for_service_deletion(
            service_name,
            attempt,
            event,
        ),
        ServiceRemoval::PauseDeletion { attempt } => ServiceRemoval::AwaitDeletion {
            attempt: attempt + 1,
        },
        other => other,
    }
}

/// How many steps of a removal can still come, at most.
pub open spec fn removal_steps_left(pending: ServiceRemoval) -> int {
    match pending {
        ServiceRemoval::Connect => 804,
        ServiceRemoval::Open => 803,
        ServiceRemoval::QueryStatus => 802,
        ServiceRemoval::Stop => 801,
        ServiceRemoval::AwaitStop { attempt } => 800 - 2 * attempt,
        ServiceRemoval::PauseStop { attempt } => 799 - 2 * attempt,
        ServiceRemoval::Delete => 401,
        ServiceRemoval::AwaitDeletion { attempt } => 400 - 2 * attempt,
        ServiceRemoval::PauseDeletion { attempt } => 399 - 2 * attempt,
        ServiceRemoval::Finished { .. } => 0,
    }
}

/// Every removal ends: each of its steps brings its end nearer.
pub proof fn removal_ends(
    name: Seq<char>,
    pending: ServiceRemoval,
    event: RemovalEvent,
    next: ServiceRemoval,
)
    requires
        pending.well_formed(),
        removal_event_fits(pending, event),
        removal_follows(name, pending, event, next),
    ensures
        0 <= removal_steps_left(next) < removal_steps_left(pending),
{
}

/// A service is found to have been absent exactly where it was not known when it
/// was first opened: removing a missing service changes nothing.
pub proof fn only_a_missing_service_was_absent(
    name: Seq<char>,
    pending: ServiceRemoval,
    event: RemovalEvent,
    next: ServiceRemoval,
)
    requires
        removal_event_fits(pending, event),
        removal_follows(name, pending, event, next),
    ensures
        next == (ServiceRemoval::Finished { result: Ok(false) }) <==> pending is Open && (
        event matches RemovalEvent::Failed(error) && tells_absent(error)),
{
}

/// A service is deleted only once it has stopped or is going anyway, and a
/// removal succeeds only once the service is not known any more.
pub proof fn service_stops_before_it_is_deleted(
    name: Seq<char>,
    pending: ServiceRemoval,
    event: RemovalEvent,
    next: ServiceRemoval,
)
    requires
        removal_event_fits(pending, event),
        removal_follows(name, pending, event, next),
    ensures
        next is Delete ==> match event {
            RemovalEvent::Status { stopped } => stopped,
            RemovalEvent::Failed(error) => tells_absent(error) || tells_marked(error),
            RemovalEvent::Done => false,
        },
        next == (ServiceRemoval::Finished { result: Ok(true) }) ==> pending is AwaitDeletion && (
        event matches RemovalEvent::Failed(error) && tells_absent(error)),
{
}

/// What a failure comes to is told by the code of Windows: 1060 says that the service is
/// not known, 1072 that it is about to go, and 1062 that it does not run. Every other
/// failure ends the removal, and is told as it is.
pub proof fn codes_decide_a_removal(
    name: Seq<char>,
    pending: ServiceRemoval,
    error: ServiceManagerError,
    next: ServiceRemoval,
)
    requires
        removal_event_fits(pending, RemovalEvent::Failed(error)),
        removal_follows(name, pending, RemovalEvent::Failed(error), next),
    ensures
        ({
            let absent = error.raw_os_error == Some(1060i32);
            let inactive = error.raw_os_error == Some(1062i32);
            let marked = error.raw_os_error == Some(1072i32);
            let failed = next matches ServiceRemoval::Finished { result: Err(text) } && text@
                == error.text@;
            match pending {
                ServiceRemoval::Connect => failed,
                ServiceRemoval::Open => if absent {
                    next == (ServiceRemoval::Finished { result: Ok(false) })
                } else if marked {
                    next == (ServiceRemoval::AwaitDeletion { attempt: 0 })
                } else {
                    failed
                },
                ServiceRemoval::QueryStatus => failed,
                ServiceRemoval::Stop => if inactive {
                    next == (ServiceRemoval::AwaitStop { attempt: 0 })
                } else {
                    failed
                },
                ServiceRemoval::AwaitStop { .. } => if absent || marked {
                    next is Delete
                } else {
                    failed
                },
                ServiceRemoval::Delete => if absent || marked {
                    next == (ServiceRemoval::AwaitDeletion { attempt: 0 })
                } else {
                    failed
                },
                ServiceRemoval::AwaitDeletion { .. } => if absent {
                    next == (ServiceRemoval::Finished { result: Ok(true) })
                } else {
                    marked || failed
                },
                _ => false,
            }
        }),
{
}

/// Whether `states` are the stages of one removal of the service `name`, `events` being
/// how they ended.
pub open spec fn is_removal(
    name: Seq<char>,
    states: Seq<ServiceRemoval>,
    events: Seq<RemovalEvent>,
) -> bool {
    &&& states.len() == events.len() + 1
    &&& states[0] is Connect
    &&& forall|i: int|
        #![trigger events[i]]
        0 <= i < events.len() ==> {
            &&& removal_event_fits(states[i], events[i])
            &&& removal_follows(name, states[i], events[i], states[i + 1])
        }
}

/// Where nothing fails, a service is opened and looked at, stopped unless it has stopped,
/// deleted and awaited.
pub proof fn running_services_are_stopped_and_deleted(
    name: Seq<char>,
    states: Seq<ServiceRemoval>,
    events: Seq<RemovalEvent>,
    stopped: bool,
)
    requires
        is_removal(name, states, events),
        events.len() >= 6,
        events[0] is Done,
        events[1] is Done,
        events[2] == (RemovalEvent::Status { stopped }),
        events[3] is Done,
        !stopped ==> events[4] == (RemovalEvent::Status { stopped: true }),
        !stopped ==> events[5] is Done,
    ensures
        states[1] is Open,
        states[2] is QueryStatus,
        stopped ==> states[3] is Delete && states[4] == (ServiceRemoval::AwaitDeletion {
            attempt: 0,
        }),
        !stopped ==> {
            &&& states[3] is Stop
            &&& states[4] == (ServiceRemoval::AwaitStop { attempt: 0 })
            &&& states[5] is Delete
            &&& states[6] == (ServiceRemoval::AwaitDeletion { attempt: 0 })
        },
{
    let _ = events[0];
    let _ = events[1];
    let _ = events[2];
    let _ = events[3];
    let _ = events[4];
    let _ = events[5];
}

/// A service that is to stop is looked at 200 times, with a pause between each two: after
/// fewer looks at a running service another one comes, after the last one the removal is
/// given up.
pub proof fn running_service_is_looked_at_200_times(
    name: Seq<char>,
    states: Seq<ServiceRemoval>,
    events: Seq<RemovalEvent>,
    from: int,
    looks: int,
)
    requires
        is_removal(name, states, events),
        0 <= from,
        0 <= looks,
        from + 2 * looks < events.len(),
        states[from] == (ServiceRemoval::AwaitStop { attempt: 0 }),
        forall|k: int|
            0 <= k <= looks ==> #[trigger] events[from + 2 * k] == (RemovalEvent::Status {
                stopped: false,
            }),
    ensures
        looks < 200,
        states[from + 2 * looks] == (ServiceRemoval::AwaitStop { attempt: looks as usize }),
        looks == 199 ==> (states[from + 2 * looks + 1] matches ServiceRemoval::Finished {
            result: Err(message),
        } && message@ == "timed out waiting for Windows service "@ + debug_form(name)
            + " to stop"@),
        looks < 199 ==> states[from + 2 * looks + 1] is PauseStop,
    decreases looks,
{
    let at = from + 2 * looks;
    assert(events[from + 2 * looks] == (RemovalEvent::Status { stopped: false }));
    if looks > 0 {
        running_service_is_looked_at_200_times(name, states, events, from, looks - 1);
        let _ = events[at - 1];
        let _ = events[at - 2];
    }
    let _ = events[at];
}

/// A service that is being deleted is looked at 200 times in the same way: as long as it
/// is still known, or told to be about to go.
pub proof fn deleted_service_is_looked_at_200_times(
    name: Seq<char>,
    states: Seq<ServiceRemoval>,
    events: Seq<RemovalEvent>,
    from: int,
    looks: int,
)
    requires
        is_removal(name, states, events),
        0 <= from,
        0 <= looks,
        from + 2 * looks < events.len(),
        states[from] == (ServiceRemoval::AwaitDeletion { attempt: 0 }),
        forall|k: int|
            0 <= k <= looks ==> (#[trigger] events[from + 2 * k] is Done || (events[from + 2 * k]
                matches RemovalEvent::Failed(error) && error.raw_os_error == Some(1072i32))),
    ensures
        looks < 200,
        states[from + 2 * looks] == (ServiceRemoval::AwaitDeletion { attempt: looks as usize }),
        looks == 199 ==> (states[from + 2 * looks + 1] matches ServiceRemoval::Finished {
            result: Err(message),
        } && message@ == "timed out waiting for Windows service "@ + debug_form(name)
            + " to be deleted"@),
        looks < 199 ==> states[from + 2 * looks + 1] is PauseDeletion,
    decreases looks,
{
    let at = from + 2 * looks;
    assert(events[from + 2 * looks] is Done || events[from + 2 * looks] is Failed);
    if looks > 0 {
        deleted_service_is_looked_at_200_times(name, states, events, from, looks - 1);
        let _ = events[at - 1];
        let _ = events[at - 2];
    }
    let _ = events[at];
}

} // verus!
