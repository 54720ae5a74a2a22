//! The takeover of the service by an owner: the order in which the previous
//! owner's proxy and core go and the new owner's come, and what is undone where
//! a step fails.
//!
//! The steps themselves run outside; this module decides which step follows
//! which outcome.
use crate::error::{ServiceError, ServiceErrorCode};
use crate::text::joined;
use vstd::prelude::*;
use vstd::string::*;

verus! {

/// A step of a takeover.
#[derive(Clone, Copy, Debug, PartialEq, Eq, Structural)]
pub enum TakeoverStep {
    ClearPreviousProxy,
    CompensateDirect,
    StopPreviousCore,
    StartNewCore,
    CommitNewOwner,
    ApplyNewProxy,
    RollbackNewOwner,
    FinalizeNewOwner,
    Finished,
}

/// A takeover under way: the step that is to be performed next, with what
/// earlier steps left for it. `A` is what committing the owner gives, `P` what
/// applying the proxy gives.
#[derive(Debug)]
pub enum OwnerProxyTransition<A, P> {
    ClearPreviousProxy,
    CompensateDirect { clear_error: String },
    StopPreviousCore,
    StartNewCore,
    CommitNewOwner,
    ApplyNewProxy { active: A },
    RollbackNewOwner { apply_error: String },
    FinalizeNewOwner { active: A, outcome: P },
    Finished { result: Result<(A, P), ServiceError> },
}

/// How a step ended. A failure carries the text of its error.
#[derive(Debug)]
pub enum TransitionEvent<A, P> {
    Done,
    Committed(A),
    Applied(P),
    Failed(String),
}

impl<A, P> OwnerProxyTransition<A, P> {
    /// The step that is to be performed.
    pub open spec fn step(&self) -> TakeoverStep {
        match self {
            OwnerProxyTransition::ClearPreviousProxy => TakeoverStep::ClearPreviousProxy,
            OwnerProxyTransition::CompensateDirect { .. } => TakeoverStep::CompensateDirect,
            OwnerProxyTransition::StopPreviousCore => TakeoverStep::StopPreviousCore,
            OwnerProxyTransition::StartNewCore => TakeoverStep::StartNewCore,
            OwnerProxyTransition::CommitNewOwner => TakeoverStep::CommitNewOwner,
            OwnerProxyTransition::ApplyNewProxy { .. } => TakeoverStep::ApplyNewProxy,
            OwnerProxyTransition::RollbackNewOwner { .. } => TakeoverStep::RollbackNewOwner,
            OwnerProxyTransition::FinalizeNewOwner { .. } => TakeoverStep::FinalizeNewOwner,
            OwnerProxyTransition::Finished { .. } => TakeoverStep::Finished,
        }
    }
}

/// Whether an event can end the step that is pending.
pub open spec fn event_fits<A, P>(
    pending: OwnerProxyTransition<A, P>,
    event: TransitionEvent<A, P>,
) -> bool {
    match (pending, event) {
        (OwnerProxyTransition::Finished { .. }, _) => false,
        (_, TransitionEvent::Failed(_)) => true,
        (OwnerProxyTransition::CommitNewOwner, TransitionEvent::Committed(_)) => true,
        (OwnerProxyTransition::ApplyNewProxy { .. }, TransitionEvent::Applied(_)) => true,
        (OwnerProxyTransition::CommitNewOwner, _) => false,
        (OwnerProxyTransition::ApplyNewProxy { .. }, _) => false,
        (_, TransitionEvent::Done) => true,
        (_, _) => false,
    }
}

/// The step that follows a step that succeeded or failed.
pub open spec fn next_step(step: TakeoverStep, succeeded: bool) -> TakeoverStep {
    match step {
        TakeoverStep::ClearPreviousProxy => if succeeded {
            TakeoverStep::StopPreviousCore
        } else {
            TakeoverStep::CompensateDirect
        },
        TakeoverStep::StopPreviousCore => if succeeded {
            TakeoverStep::StartNewCore
        } else {
            TakeoverStep::Finished
        },
        TakeoverStep::StartNewCore => if succeeded {
            TakeoverStep::CommitNewOwner
        } else {
            TakeoverStep::Finished
        },
        TakeoverStep::CommitNewOwner => if succeeded {
            TakeoverStep::ApplyNewProxy
        } else {
            TakeoverStep::Finished
        },
        TakeoverStep::ApplyNewProxy => if succeeded {
            TakeoverStep::FinalizeNewOwner
        } else {
            TakeoverStep::RollbackNewOwner
        },
        _ => TakeoverStep::Finished,
    }
}

/// The text of an error, followed by that of the failure to undo it, if undoing
/// failed too.
pub open spec fn with_second_failure<A, P>(
    message: Seq<char>,
    link: Seq<char>,
    event: TransitionEvent<A, P>,
) -> Seq<char> {
    match event {
        TransitionEvent::Failed(error) => message + link + error@,
        _ => message,
    }
}

/// Whether a takeover is over, with this refusal.
pub open spec fn refused<A, P>(
    next: OwnerProxyTransition<A, P>,
    code: ServiceErrorCode,
    message: Seq<char>,
) -> bool {
    next matches OwnerProxyTransition::Finished { result: Err(error) } && error.is(code, message)
}

/// What a takeover becomes when its pending step ends.
pub open spec fn transition_follows<A, P>(
    pending: OwnerProxyTransition<A, P>,
    event: TransitionEvent<A, P>,
    next: OwnerProxyTransition<A, P>,
) -> bool {
    match (pending, event) {
        (OwnerProxyTransition::ClearPreviousProxy, TransitionEvent::Failed(error)) => next
            == OwnerProxyTransition::<A, P>::CompensateDirect { clear_error: error },
        (OwnerProxyTransition::ClearPreviousProxy, _) => next
            == OwnerProxyTransition::<A, P>::StopPreviousCore,
        (OwnerProxyTransition::CompensateDirect { clear_error }, _) => refused(
            next,
            ServiceErrorCode::ProxyClearFailed,
            with_second_failure(
                "Failed to clear the previous owner's proxy: "@ + clear_error@,
                "; direct compensation failed: "@,
                event,
            ),
        ),
        (OwnerProxyTransition::StopPreviousCore, TransitionEvent::Failed(error)) => refused(
            next,
            ServiceErrorCode::OwnerSwitchFailed,
            "Failed to stop the previous owner core: "@ + error@,
        ),
        (OwnerProxyTransition::StopPreviousCore, _) => next
            == OwnerProxyTransition::<A, P>::StartNewCore,
        (OwnerProxyTransition::StartNewCore, TransitionEvent::Failed(error)) => refused(
            next,
            ServiceErrorCode::OwnerSwitchFailed,
            "Failed to start owner core: "@ + error@,
        ),
        (OwnerProxyTransition::StartNewCore, _) => next
            == OwnerProxyTransition::<A, P>::CommitNewOwner,
        (OwnerProxyTransition::CommitNewOwner, TransitionEvent::Failed(error)) => refused(
            next,
            ServiceErrorCode::OwnerSwitchFailed,
            "Failed to commit owner state: "@ + error@,
        ),
        (OwnerProxyTransition::CommitNewOwner, TransitionEvent::Committed(active)) => next
            == OwnerProxyTransition::<A, P>::ApplyNewProxy { active },
        (OwnerProxyTransition::ApplyNewProxy { .. }, TransitionEvent::Failed(error)) => next
            == OwnerProxyTransition::<A, P>::RollbackNewOwner { apply_error: error },
        (OwnerProxyTransition::ApplyNewProxy { active }, TransitionEvent::Applied(outcome)) => next
            == OwnerProxyTransition::FinalizeNewOwner { active, outcome },
        (OwnerProxyTransition::RollbackNewOwner { apply_error }, _) => refused(
            next,
            ServiceErrorCode::ProxyApplyFailed,
            with_second_failure(
                "Failed to apply owner proxy: "@ + apply_error@,
                "; failed to roll back the new owner: "@,
                event,
            ),
        ),
        (OwnerProxyTransition::FinalizeNewOwner { .. }, TransitionEvent::Failed(error)) => refused(
            next,
            ServiceErrorCode::OwnerSwitchFailed,
            "Failed to finalize owner runtime: "@ + error@,
        ),
        (OwnerProxyTransition::FinalizeNewOwner { active, outcome }, _) => next
            == OwnerProxyTransition::Finished { result: Ok((active, outcome)) },
        _ => false,
    }
}

fn refuse<A, P>(code: ServiceErrorCode, lead: &str, error: &str) -> (next: OwnerProxyTransition<
    A,
    P,
>)
    ensures
        refused(next, code, lead@ + error@),
{
    OwnerProxyTransition::Finished { result: Err(ServiceError::new(code, joined(lead, error))) }
}

/// Decides what follows when the pending step of a takeover has ended.
pub fn owner_proxy_transition<A, P>(
    pending: OwnerProxyTransition<A, P>,
    event: TransitionEvent<A, P>,
) -> (next: OwnerProxyTransition<A, P>)
    requires
        event_fits(pending, event),
    ensures
        transition_follows(pending, event, next),
        next.step() == next_step(pending.step(), !(event is Failed)),
{
    match pending {
        OwnerProxyTransition::ClearPreviousProxy => match event {
            TransitionEvent::Failed(error) => OwnerProxyTransition::CompensateDirect {
                clear_error: error,
            },
            _ => OwnerProxyTransition::StopPreviousCore,
        },
        OwnerProxyTransition::CompensateDirect { clear_error } => {
            let mut message: String = joined(
                "Failed to clear the previous owner's proxy: ",
                clear_error.as_str(),
            );
            if let TransitionEvent::Failed(error) = event {
                message = message.concat("; direct compensation failed: ").concat(error.as_str());
            }
            OwnerProxyTransition::Finished { result: Err(ServiceError::proxy_clear_failed(message)) }
        },
        OwnerProxyTransition::StopPreviousCore => match event {
            TransitionEvent::Failed(error) => refuse(
                ServiceErrorCode::OwnerSwitchFailed,
                "Failed to stop the previous owner core: ",
                error.as_str(),
            ),
            _ => OwnerProxyTransition::StartNewCore,
        },
        OwnerProxyTransition::StartNewCore => match event {
            TransitionEvent::Failed(error) => refuse(
                ServiceErrorCode::OwnerSwitchFailed,
                "Failed to start owner core: ",
                error.as_str(),
            ),
            _ => OwnerProxyTransition::CommitNewOwner,
        },
        OwnerProxyTransition::CommitNewOwner => match event {
            TransitionEvent::Committed(active) => OwnerProxyTransition::ApplyNewProxy { active },
            TransitionEvent::Failed(error) => refuse(
                ServiceErrorCode::OwnerSwitchFailed,
                "Failed to commit owner state: ",
                error.as_str(),
            ),
            _ => OwnerProxyTransition::CommitNewOwner,
        },
        OwnerProxyTransition::ApplyNewProxy { active } => match event {
            TransitionEvent::Applied(outcome) => OwnerProxyTransition::FinalizeNewOwner {
                active,
                outcome,
            },
            TransitionEvent::Failed(error) => OwnerProxyTransition::RollbackNewOwner {
                apply_error: error,
            },
            _ => OwnerProxyTransition::ApplyNewProxy { active },
        },
        OwnerProxyTransition::RollbackNewOwner { apply_error } => {
            let mut message: String = joined(
                "Failed to apply owner proxy: ",
                apply_error.as_str(),
            );
            if let TransitionEvent::Failed(error) = event {
                message = message.concat("; failed to roll back the new owner: ").concat(
                    error.as_str(),
                );
            }
            OwnerProxyTransition::Finished { result: Err(ServiceError::proxy_apply_failed(message)) }
        },
        OwnerProxyTransition::FinalizeNewOwner { active, outcome } => match event {
            TransitionEvent::Failed(error) => refuse(
                ServiceErrorCode::OwnerSwitchFailed,
                "Failed to finalize owner runtime: ",
                error.as_str(),
            ),
            _ => OwnerProxyTransition::Finished { result: Ok((active, outcome)) },
        },
        OwnerProxyTransition::Finished { result } => OwnerProxyTransition::Finished { result },
    }
}

/// How many steps can still come, at most.
pub open spec fn steps_left(step: TakeoverStep) -> nat {
    match step {
        TakeoverStep::ClearPreviousProxy => 6,
        TakeoverStep::StopPreviousCore => 5,
        TakeoverStep::StartNewCore => 4,
        TakeoverStep::CommitNewOwner => 3,
        TakeoverStep::ApplyNewProxy => 2,
        TakeoverStep::CompensateDirect => 1,
        TakeoverStep::RollbackNewOwner => 1,
        TakeoverStep::FinalizeNewOwner => 1,
        TakeoverStep::Finished => 0,
    }
}

/// The steps that a takeover performs from `step` on, where `succeeds` tells
/// which steps succeed.
pub open spec fn steps_from(step: TakeoverStep, succeeds: spec_fn(TakeoverStep) -> bool) -> Seq<
    TakeoverStep,
>
    decreases steps_left(step),
{
    if step == TakeoverStep::Finished {
        Seq::empty()
    } else {
        seq![step] + steps_from(next_step(step, succeeds(step)), succeeds)
    }
}

/// The steps that a whole takeover performs.
pub open spec fn takeover_steps(succeeds: spec_fn(TakeoverStep) -> bool) -> Seq<TakeoverStep> {
    steps_from(TakeoverStep::ClearPreviousProxy, succeeds)
}

/// The exact order of a takeover. Where every step succeeds: clear the proxy,
/// stop the previous core, start the new one, commit the owner, apply the
/// proxy, finalize. Where the proxy cannot be cleared, nothing but the direct
/// connection is tried: the previous owner and its core stay. Where the previous
/// core cannot be stopped, the new one is not started. Where the new proxy
/// cannot be applied, the new owner is rolled back and never finalized.
pub proof fn takeover_has_exact_order(succeeds: spec_fn(TakeoverStep) -> bool)
    ensures
        takeover_steps(succeeds) == (if !succeeds(TakeoverStep::ClearPreviousProxy) {
            seq![TakeoverStep::ClearPreviousProxy, TakeoverStep::CompensateDirect]
        } else if !succeeds(TakeoverStep::StopPreviousCore) {
            seq![TakeoverStep::ClearPreviousProxy, TakeoverStep::StopPreviousCore]
        } else if !succeeds(TakeoverStep::StartNewCore) {
            seq![
                TakeoverStep::ClearPreviousProxy,
                TakeoverStep::StopPreviousCore,
                TakeoverStep::StartNewCore,
            ]
        } else if !succeeds(TakeoverStep::CommitNewOwner) {
            seq![
                TakeoverStep::ClearPreviousProxy,
                TakeoverStep::StopPreviousCore,
                TakeoverStep::StartNewCore,
                TakeoverStep::CommitNewOwner,
            ]
        } else if !succeeds(TakeoverStep::ApplyNewProxy) {
            seq![
                TakeoverStep::ClearPreviousProxy,
                TakeoverStep::StopPreviousCore,
                TakeoverStep::StartNewCore,
                TakeoverStep::CommitNewOwner,
                TakeoverStep::ApplyNewProxy,
                TakeoverStep::RollbackNewOwner,
            ]
        } else {
            seq![
                TakeoverStep::ClearPreviousProxy,
                TakeoverStep::StopPreviousCore,
                TakeoverStep::StartNewCore,
                TakeoverStep::CommitNewOwner,
                TakeoverStep::ApplyNewProxy,
                TakeoverStep::FinalizeNewOwner,
            ]
        }),
{
    reveal_with_fuel(steps_from, 8);
}

/// Whether `states` are the stages of one takeover, `events` being how its steps
/// ended.
pub open spec fn is_takeover<A, P>(
    states: Seq<OwnerProxyTransition<A, P>>,
    events: Seq<TransitionEvent<A, P>>,
) -> bool {
    &&& states.len() == events.len() + 1
    &&& states[0] == OwnerProxyTransition::<A, P>::ClearPreviousProxy
    &&& forall|i: int|
        #![trigger events[i]]
        0 <= i < events.len() ==> {
            &&& event_fits(states[i], events[i])
            &&& transition_follows(states[i], events[i], states[i + 1])
        }
}

/// A takeover succeeds only by its six steps, all of which succeeded, and
/// hands back what committing the owner and applying the proxy gave.
pub proof fn takeover_succeeds_by_all_steps<A, P>(
    states: Seq<OwnerProxyTransition<A, P>>,
    events: Seq<TransitionEvent<A, P>>,
    active: A,
    outcome: P,
)
    requires
        is_takeover(states, events),
        states.last() == (OwnerProxyTransition::Finished { result: Ok((active, outcome)) }),
    ensures
        events =~= seq![
            TransitionEvent::Done,
            TransitionEvent::Done,
            TransitionEvent::Done,
            TransitionEvent::Committed(active),
            TransitionEvent::Applied(outcome),
            TransitionEvent::Done,
        ],
{
    takeover_is_short(states, events);
    let n = events.len();
    assert(n > 0);
    let _ = events[0];
    if n > 1 {
        let _ = events[1];
    }
    if n > 2 {
        let _ = events[2];
    }
    if n > 3 {
        let _ = events[3];
    }
    if n > 4 {
        let _ = events[4];
    }
    if n > 5 {
        let _ = events[5];
    }
}

/// Each step of a takeover brings its end nearer.
proof fn step_comes_nearer<A, P>(
    pending: OwnerProxyTransition<A, P>,
    event: TransitionEvent<A, P>,
    next: OwnerProxyTransition<A, P>,
)
    requires
        event_fits(pending, event),
        transition_follows(pending, event, next),
    ensures
        steps_left(next.step()) < steps_left(pending.step()),
{
}

/// No takeover takes more than six steps.
pub proof fn takeover_is_short<A, P>(
    states: Seq<OwnerProxyTransition<A, P>>,
    events: Seq<TransitionEvent<A, P>>,
)
    requires
        is_takeover(states, events),
    ensures
        events.len() + steps_left(states.last().step()) <= 6,
    decreases events.len(),
{
    if events.len() > 0 {
        let last = events.len() - 1;
        let earlier_states = states.drop_last();
        let earlier_events = events.drop_last();
        assert(is_takeover(earlier_states, earlier_events)) by {
            assert forall|i: int|
                #![trigger earlier_events[i]]
                0 <= i < earlier_events.len() implies {
                &&& event_fits(earlier_states[i], earlier_events[i])
                &&& transition_follows(earlier_states[i], earlier_events[i], earlier_states[i + 1])
            } by {
                assert(earlier_events[i] == events[i]);
            }
        }
        takeover_is_short(earlier_states, earlier_events);
        let event = events[last];
        step_comes_nearer(states[last], event, states[last + 1]);
    }
}

/// A takeover that is refused tells by its kind and its text what failed, and where
/// undoing it failed too, that as well; it is refused exactly where a step failed.
pub proof fn takeover_refusal_tells_the_step<A, P>(
    states: Seq<OwnerProxyTransition<A, P>>,
    events: Seq<TransitionEvent<A, P>>,
    error: ServiceError,
)
    requires
        is_takeover(states, events),
        states.last() == (OwnerProxyTransition::<A, P>::Finished { result: Err(error) }),
    ensures
        ({
            let behind = |link: Seq<char>|
                match events.last() {
                    TransitionEvent::Failed(second) => link + second@,
                    _ => Seq::empty(),
                };
            let failure = |at: int|
                match events[at] {
                    TransitionEvent::Failed(text) => text@,
                    _ => Seq::empty(),
                };
            if events[0] is Failed {
                &&& events.len() == 2
                &&& error.code == ServiceErrorCode::ProxyClearFailed
                &&& error.message@ == "Failed to clear the previous owner's proxy: "@ + failure(0)
                    + behind("; direct compensation failed: "@)
            } else if events[1] is Failed {
                &&& events.len() == 2
                &&& error.code == ServiceErrorCode::OwnerSwitchFailed
                &&& error.message@ == "Failed to stop the previous owner core: "@ + failure(1)
            } else if events[2] is Failed {
                &&& events.len() == 3
                &&& error.code == ServiceErrorCode::OwnerSwitchFailed
                &&& error.message@ == "Failed to start owner core: "@ + failure(2)
            } else if events[3] is Failed {
                &&& events.len() == 4
                &&& error.code == ServiceErrorCode::OwnerSwitchFailed
                &&& error.message@ == "Failed to commit owner state: "@ + failure(3)
            } else if events[4] is Failed {
                &&& events.len() == 6
                &&& error.code == ServiceErrorCode::ProxyApplyFailed
                &&& error.message@ == "Failed to apply owner proxy: "@ + failure(4) + behind(
                    "; failed to roll back the new owner: "@,
                )
            } else {
                &&& events.len() == 6
                &&& events[5] is Failed
                &&& error.code == ServiceErrorCode::OwnerSwitchFailed
                &&& error.message@ == "Failed to finalize owner runtime: "@ + failure(5)
            }
        }),
{
    takeover_is_short(states, events);
    let n = events.len();
    assert(n > 0);
    let _ = events[0];
    if n > 1 {
        let _ = events[1];
    }
    if n > 2 {
        let _ = events[2];
    }
    if n > 3 {
        let _ = events[3];
    }
    if n > 4 {
        let _ = events[4];
    }
    if n > 5 {
        let _ = events[5];
    }
    if events[0] is Failed {
        assert(n == 2);
        let first = "Failed to clear the previous owner's proxy: "@ + events[0]->Failed_0@;
        assert(first + Seq::empty() =~= first);
        if let TransitionEvent::Failed(second) = events[1] {
            let link = "; direct compensation failed: "@;
            assert(first + link + second@ =~= first + (link + second@));
        }
    } else if n == 6 && events[4] is Failed {
        let first = "Failed to apply owner proxy: "@ + events[4]->Failed_0@;
        assert(first + Seq::empty() =~= first);
        if let TransitionEvent::Failed(second) = events[5] {
            let link = "; failed to roll back the new owner: "@;
            assert(first + link + second@ =~= first + (link + second@));
        }
    }
}

/// Where all six steps succeed, the takeover succeeds with what committing the owner and
/// applying the proxy gave, whatever these are.
pub proof fn six_successes_take_over<A, P>(
    states: Seq<OwnerProxyTransition<A, P>>,
    events: Seq<TransitionEvent<A, P>>,
    active: A,
    outcome: P,
)
    requires
        is_takeover(states, events),
        events == seq![
            TransitionEvent::<A, P>::Done,
            TransitionEvent::Done,
            TransitionEvent::Done,
            TransitionEvent::Committed(active),
            TransitionEvent::Applied(outcome),
            TransitionEvent::Done,
        ],
    ensures
        states.last() == (OwnerProxyTransition::Finished { result: Ok((active, outcome)) }),
{
    let _ = events[0];
    let _ = events[1];
    let _ = events[2];
    let _ = events[3];
    let _ = events[4];
    let _ = events[5];
}

/// What a running takeover asks for next is told by how many steps have succeeded, and by
/// the one that failed.
pub proof fn takeover_asks_for_the_next_step<A, P>(
    states: Seq<OwnerProxyTransition<A, P>>,
    events: Seq<TransitionEvent<A, P>>,
)
    requires
        is_takeover(states, events),
        !(states.last() is Finished),
    ensures
        ({
            let all_succeeded = forall|i: int| 0 <= i < events.len() ==> !(events[i] is Failed);
            let next = states.last();
            &&& all_succeeded ==> {
                ||| events.len() == 0 && next is ClearPreviousProxy
                ||| events.len() == 1 && next is StopPreviousCore
                ||| events.len() == 2 && next is StartNewCore
                ||| events.len() == 3 && next is CommitNewOwner
                ||| events.len() == 4 && next is ApplyNewProxy
                ||| events.len() == 5 && next is FinalizeNewOwner
            }
            &&& !all_succeeded ==> {
                ||| events.len() == 1 && next is CompensateDirect
                ||| events.len() == 5 && next is RollbackNewOwner
            }
        }),
{
    takeover_is_short(states, events);
    let n = events.len();
    if n > 0 {
        let _ = events[0];
    }
    if n > 1 {
        let _ = events[1];
    }
    if n > 2 {
        let _ = events[2];
    }
    if n > 3 {
        let _ = events[3];
    }
    if n > 4 {
        let _ = events[4];
    }
}

} // verus!
