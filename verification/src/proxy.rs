//! The system proxy that an owner brings: where the service manages it, and how
//! it is given up.
use crate::error::{ServiceError, ServiceErrorCode};
use crate::native::Platform;
use crate::text::joined;
use vstd::prelude::*;
use vstd::string::*;

verus! {

/// What became of the proxy that an owner asked for.
#[derive(Debug)]
pub enum ProxyApplyOutcome {
    Applied,
    NotRequested,
    DirectFallback { message: String },
}

/// Whether the service sets and clears the system proxy itself: on macOS, and
/// not in a test build.
pub open spec fn proxy_is_managed(platform: Platform, test_build: bool) -> bool {
    platform == Platform::Macos && !test_build
}

/// What giving up the proxy, or falling back to a direct connection, calls for.
#[derive(Clone, Copy, Debug, PartialEq, Eq, Structural)]
pub enum ProxyCall {
    /// The system is asked to do it.
    System,
    /// There is nothing to do.
    Nothing,
}

/// Whether the proxy has to be cleared in the system.
pub fn clear_service_proxy(platform: Platform, test_build: bool) -> (call: ProxyCall)
    ensures
        call == call_of(platform, test_build),
        call == (if proxy_is_managed(platform, test_build) {
            ProxyCall::System
        } else {
            ProxyCall::Nothing
        }),
{
    if platform == Platform::Macos && !test_build {
        ProxyCall::System
    } else {
        ProxyCall::Nothing
    }
}

/// Whether a direct connection has to be set in the system.
pub fn compensate_service_proxy(platform: Platform, test_build: bool) -> (call: ProxyCall)
    ensures
        call == call_of(platform, test_build),
        call == (if proxy_is_managed(platform, test_build) {
            ProxyCall::System
        } else {
            ProxyCall::Nothing
        }),
{
    clear_service_proxy(platform, test_build)
}

/// What applying an owner's proxy calls for.
#[derive(Debug)]
pub enum ProxyApplication {
    /// The proxy is applied in the system, with a direct connection to fall back
    /// to.
    System,
    /// Nothing is applied, and this is the outcome.
    Outcome(ProxyApplyOutcome),
}

/// How the proxy that was asked for, if one was, is applied: a test build leaves
/// the system alone.
pub fn apply_service_proxy_or_direct(test_build: bool, requested: bool) -> (application:
    ProxyApplication)
    ensures
        application == application_of(test_build, requested),
        application == (if !test_build {
            ProxyApplication::System
        } else if requested {
            ProxyApplication::Outcome(ProxyApplyOutcome::Applied)
        } else {
            ProxyApplication::Outcome(ProxyApplyOutcome::NotRequested)
        }),
{
    if !test_build {
        ProxyApplication::System
    } else if requested {
        ProxyApplication::Outcome(ProxyApplyOutcome::Applied)
    } else {
        ProxyApplication::Outcome(ProxyApplyOutcome::NotRequested)
    }
}

/// The text of a failure, followed by that of the failure of what was tried
/// next, if that failed too.
pub open spec fn with_failure(
    message: Seq<char>,
    link: Seq<char>,
    outcome: Result<(), String>,
) -> Seq<char> {
    match outcome {
        Ok(()) => message,
        Err(error) => message + link + error@,
    }
}

/// The text of a failure, followed by that of the failure of what was tried
/// next, if that failed too.
pub fn append_failure(message: String, link: &str, outcome: &Result<(), String>) -> (text: String)
    ensures
        text@ == with_failure(message@, link@, *outcome),
{
    match outcome {
        Ok(()) => message,
        Err(error) => message.concat(link).concat(error.as_str()),
    }
}

/// The proxy of the active owner being given up: clear it, and where that fails
/// set a direct connection.
#[derive(Debug)]
pub enum ProxyClearing {
    ClearProxy,
    CompensateDirect { clear_error: String },
    Finished { result: Result<(), ServiceError> },
}

/// What follows when the pending step of clearing the active owner's proxy ends.
/// A proxy that could not be cleared is an error, even where the direct
/// connection was set.
pub open spec fn clearing_follows(
    pending: ProxyClearing,
    outcome: Result<(), String>,
    next: ProxyClearing,
) -> bool {
    match pending {
        ProxyClearing::ClearProxy => match outcome {
            Ok(()) => next == (ProxyClearing::Finished { result: Ok(()) }),
            Err(clear_error) => next == (ProxyClearing::CompensateDirect { clear_error }),
        },
        ProxyClearing::CompensateDirect { clear_error } => next matches ProxyClearing::Finished {
            result: Err(error),
        } && error.is(
            ServiceErrorCode::ProxyClearFailed,
            with_failure(
                "Failed to clear the active owner's proxy: "@ + clear_error@,
                "; direct compensation failed: "@,
                outcome,
            ),
        ),
        ProxyClearing::Finished { .. } => false,
    }
}

/// Decides what follows when the pending step of clearing the active owner's
/// proxy has ended.
pub fn clear_proxy_with_direct_compensation(
    pending: ProxyClearing,
    outcome: Result<(), String>,
) -> (next: ProxyClearing)
    requires
        !(pending is Finished),
    ensures
        clearing_follows(pending, outcome, next),
{
    match pending {
        ProxyClearing::ClearProxy => match outcome {
            Ok(()) => ProxyClearing::Finished { result: Ok(()) },
            Err(clear_error) => ProxyClearing::CompensateDirect { clear_error },
        },
        ProxyClearing::CompensateDirect { clear_error } => {
            let message: String = append_failure(
                joined("Failed to clear the active owner's proxy: ", clear_error.as_str()),
                "; direct compensation failed: ",
                &outcome,
            );
            ProxyClearing::Finished { result: Err(ServiceError::proxy_clear_failed(message)) }
        },
        ProxyClearing::Finished { result } => ProxyClearing::Finished { result },
    }
}

/// The proxy of a rejected owner being given up.
#[derive(Debug)]
pub enum DirectRestoration {
    ClearProxy,
    CompensateDirect { clear_error: String },
    Finished { result: Result<(), String> },
}

/// What follows when the pending step of giving up a rejected owner's proxy ends:
/// either step is enough, and only the failure of both is an error.
pub open spec fn restoration_follows(
    pending: DirectRestoration,
    outcome: Result<(), String>,
    next: DirectRestoration,
) -> bool {
    match pending {
        DirectRestoration::ClearProxy => match outcome {
            Ok(()) => next == (DirectRestoration::Finished { result: Ok(()) }),
            Err(clear_error) => next == (DirectRestoration::CompensateDirect { clear_error }),
        },
        DirectRestoration::CompensateDirect { clear_error } => match outcome {
            Ok(()) => next == (DirectRestoration::Finished { result: Ok(()) }),
            Err(error) => next matches DirectRestoration::Finished { result: Err(message) }
                && message@ == "failed to clear the rejected owner's proxy: "@ + clear_error@
                + "; direct compensation failed: "@ + error@,
        },
        DirectRestoration::Finished { .. } => false,
    }
}

/// Decides what follows when the pending step of giving up a rejected owner's
/// proxy has ended.
pub fn restore_direct_proxy(pending: DirectRestoration, outcome: Result<(), String>) -> (next:
    DirectRestoration)
    requires
        !(pending is Finished),
    ensures
        restoration_follows(pending, outcome, next),
{
    match pending {
        DirectRestoration::ClearProxy => match outcome {
            Ok(()) => DirectRestoration::Finished { result: Ok(()) },
            Err(clear_error) => DirectRestoration::CompensateDirect { clear_error },
        },
        DirectRestoration::CompensateDirect { clear_error } => match outcome {
            Ok(()) => DirectRestoration::Finished { result: Ok(()) },
            Err(error) => DirectRestoration::Finished {
                result: Err(
                    joined(
                        "failed to clear the rejected owner's proxy: ",
                        clear_error.as_str(),
                    ).concat("; direct compensation failed: ").concat(error.as_str()),
                ),
            },
        },
        DirectRestoration::Finished { result } => DirectRestoration::Finished { result },
    }
}

/// A stopped owner's proxy that could not be cleared is always reported, and
/// what was said of the first failure comes first.
pub proof fn uncleared_proxy_is_reported(
    clear_error: String,
    outcome: Result<(), String>,
    next: ProxyClearing,
)
    requires
        clearing_follows(ProxyClearing::CompensateDirect { clear_error }, outcome, next),
    ensures
        next matches ProxyClearing::Finished { result: Err(error) } && error.code
            == ServiceErrorCode::ProxyClearFailed && (
        "Failed to clear the active owner's proxy: "@ + clear_error@).is_prefix_of(
            error.message@,
        ),
{
    if let ProxyClearing::Finished { result: Err(error) } = next {
        let lead = "Failed to clear the active owner's proxy: "@ + clear_error@;
        assert(error.message@.subrange(0, lead.len() as int) =~= lead);
    }
}

/// The service sets and clears the system proxy on macOS alone, and never in a test
/// build.
pub proof fn proxy_is_managed_on_macos_alone(platform: Platform, test_build: bool)
    ensures
        proxy_is_managed(Platform::Macos, false),
        proxy_is_managed(platform, test_build) ==> platform == Platform::Macos && !test_build,
{
}

/// The text of a failure stands first, whatever was tried next; the failure of that is
/// appended behind its link, and nothing is where it succeeded.
pub proof fn second_failure_is_appended(
    message: Seq<char>,
    link: Seq<char>,
    outcome: Result<(), String>,
)
    ensures
        outcome is Ok ==> with_failure(message, link, outcome) == message,
        outcome matches Err(error) ==> {
            let text = with_failure(message, link, outcome);
            &&& text.len() == message.len() + link.len() + error@.len()
            &&& text.take(message.len() as int) == message
            &&& text.skip(message.len() as int).take(link.len() as int) == link
            &&& text.skip(message.len() as int + link.len() as int) == error@
        },
{
    if let Err(error) = outcome {
        let text = with_failure(message, link, outcome);
        assert(text.take(message.len() as int) =~= message);
        assert(text.skip(message.len() as int).take(link.len() as int) =~= link);
        assert(text.skip(message.len() as int + link.len() as int) =~= error@);
    }
}

/// Whether clearing the active owner's proxy went like this: `cleared` is what clearing
/// it came to, and `direct` what setting a direct connection came to, where that was
/// tried.
pub open spec fn clearing_comes_to(
    cleared: Result<(), String>,
    direct: Result<(), String>,
    middle: ProxyClearing,
    last: ProxyClearing,
) -> bool {
    &&& clearing_follows(ProxyClearing::ClearProxy, cleared, middle)
    &&& if middle is Finished {
        last == middle
    } else {
        clearing_follows(middle, direct, last)
    }
}

/// The active owner's proxy is given up exactly where it could be cleared; then nothing
/// else is tried. Where it could not, a direct connection is tried, and whatever comes of
/// that, both failures are told.
pub proof fn proxy_is_given_up_only_by_clearing_it(
    cleared: Result<(), String>,
    direct: Result<(), String>,
    middle: ProxyClearing,
    last: ProxyClearing,
)
    requires
        clearing_comes_to(cleared, direct, middle, last),
    ensures
        last matches ProxyClearing::Finished { result } && (result is Ok <==> cleared is Ok),
        cleared is Ok <==> middle is Finished,
        cleared matches Err(clear_error) ==> (last matches ProxyClearing::Finished {
            result: Err(error),
        } && error.code == ServiceErrorCode::ProxyClearFailed && error.message@ == (match direct {
            Ok(_) => "Failed to clear the active owner's proxy: "@ + clear_error@,
            Err(second) => "Failed to clear the active owner's proxy: "@ + clear_error@
                + "; direct compensation failed: "@ + second@,
        })),
{
}

/// Whether giving up a rejected owner's proxy went like this.
pub open spec fn restoration_comes_to(
    cleared: Result<(), String>,
    direct: Result<(), String>,
    middle: DirectRestoration,
    last: DirectRestoration,
) -> bool {
    &&& restoration_follows(DirectRestoration::ClearProxy, cleared, middle)
    &&& if middle is Finished {
        last == middle
    } else {
        restoration_follows(middle, direct, last)
    }
}

/// A rejected owner's proxy is given up where it could be cleared, or else where a direct
/// connection could be set; only where neither could, both failures are told.
pub proof fn either_way_gives_a_rejected_proxy_up(
    cleared: Result<(), String>,
    direct: Result<(), String>,
    middle: DirectRestoration,
    last: DirectRestoration,
)
    requires
        restoration_comes_to(cleared, direct, middle, last),
    ensures
        cleared is Ok <==> middle is Finished,
        last matches DirectRestoration::Finished { result } && (result is Ok <==> cleared is Ok
            || direct is Ok),
        cleared matches Err(clear_error) ==> (direct matches Err(second) ==> (last matches
            DirectRestoration::Finished { result: Err(message) } && message@
            == "failed to clear the rejected owner's proxy: "@ + clear_error@
            + "; direct compensation failed: "@ + second@)),
{
}

/// What giving up the proxy, or setting a direct connection, calls for.
pub open spec fn call_of(platform: Platform, test_build: bool) -> ProxyCall {
    if proxy_is_managed(platform, test_build) {
        ProxyCall::System
    } else {
        ProxyCall::Nothing
    }
}

/// What applying a proxy calls for.
pub open spec fn application_of(test_build: bool, requested: bool) -> ProxyApplication {
    if !test_build {
        ProxyApplication::System
    } else if requested {
        ProxyApplication::Outcome(ProxyApplyOutcome::Applied)
    } else {
        ProxyApplication::Outcome(ProxyApplyOutcome::NotRequested)
    }
}

/// The system is asked to give up a proxy on macOS alone, and to apply one everywhere. A
/// test build never asks it: there a proxy that was asked for counts as applied, and one
/// that was not as not requested.
pub proof fn test_builds_leave_the_system_alone(
    platform: Platform,
    test_build: bool,
    requested: bool,
)
    ensures
        call_of(Platform::Macos, false) == ProxyCall::System,
        call_of(platform, test_build) == ProxyCall::System ==> platform == Platform::Macos
            && !test_build,
        application_of(test_build, requested) is System <==> !test_build,
        application_of(true, true) matches ProxyApplication::Outcome(outcome) && outcome is Applied,
        application_of(true, false) matches ProxyApplication::Outcome(outcome) && outcome
            is NotRequested,
{
}

} // verus!
