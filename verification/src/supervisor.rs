//! The supervisor of the IPC server: it rebuilds a server that has ended, after
//! a growing pause, and gives up where that happens too often.
use crate::text::{decimal, decimal_text, joined};
use vstd::prelude::*;
use vstd::string::*;

verus! {

/// How often the server may be rebuilt within the window.
pub const IPC_MAX_RESTARTS: usize = 10;

/// The window in which restarts are counted, in nanoseconds.
pub const IPC_RESTART_WINDOW_NANOS: u64 = 10000000000;

/// The window in which restarts are counted, in seconds.
pub const IPC_RESTART_WINDOW_SECS: u64 = 10;

/// The longest pause before a restart, in milliseconds.
pub const IPC_MAX_BACKOFF_MS: u64 = 500;

/// What the service says of itself.
#[derive(Clone, Copy, Debug, PartialEq, Eq, Structural)]
pub enum ServiceLifecycleState {
    Starting,
    Running,
    RecoveringIpc,
    Fatal,
}

/// The pause before a restart, in milliseconds: none before the first attempt,
/// then 100, doubled with each attempt, and never more than the longest one.
pub open spec fn backoff(attempt: nat) -> nat
    decreases attempt,
{
    if attempt == 0 {
        0
    } else if attempt == 1 {
        100
    } else {
        let doubled = 2 * backoff((attempt - 1) as nat);
        if doubled < IPC_MAX_BACKOFF_MS {
            doubled
        } else {
            IPC_MAX_BACKOFF_MS as nat
        }
    }
}

/// From the fourth attempt on, the pause is the longest one.
proof fn backoff_is_capped(attempt: nat)
    requires
        attempt >= 4,
    ensures
        backoff(attempt) == IPC_MAX_BACKOFF_MS,
    decreases attempt,
{
    reveal_with_fuel(backoff, 5);
    if attempt > 4 {
        backoff_is_capped((attempt - 1) as nat);
    }
}

/// The pause before a restart, in milliseconds.
pub fn ipc_backoff_delay(attempt: u32) -> (delay_ms: u64)
    ensures
        delay_ms == backoff(attempt as nat),
{
    proof {
        reveal_with_fuel(backoff, 4);
        if attempt >= 4 {
            backoff_is_capped(attempt as nat);
        }
    }
    if attempt == 0 {
        return 0;
    }
    let doublings: u32 = if attempt - 1 < 3 {
        attempt - 1
    } else {
        3
    };
    assert(100u64 << 0u32 == 100 && 100u64 << 1u32 == 200 && 100u64 << 2u32 == 400 && 100u64
        << 3u32 == 800) by (bit_vector);
    let delay_ms: u64 = 100u64 << doublings;
    if delay_ms < IPC_MAX_BACKOFF_MS {
        delay_ms
    } else {
        IPC_MAX_BACKOFF_MS
    }
}

/// Pauses never shrink from one attempt to a later one, and never exceed the
/// longest one.
pub proof fn backoff_grows_to_its_bound(earlier: nat, later: nat)
    requires
        earlier <= later,
    ensures
        backoff(earlier) <= backoff(later) <= IPC_MAX_BACKOFF_MS,
    decreases later,
{
    reveal_with_fuel(backoff, 2);
    if later > 0 {
        backoff_grows_to_its_bound((later - 1) as nat, (later - 1) as nat);
        if earlier < later {
            backoff_grows_to_its_bound(earlier, (later - 1) as nat);
        }
    }
}

/// Whether a restart at `time` counts at `now`. A time that is later than `now`
/// counts as `now`.
pub open spec fn counts(time: u64, now: u64) -> bool {
    now - time < IPC_RESTART_WINDOW_NANOS
}

/// The times that count at `now`, in their order.
pub open spec fn counted(times: Seq<u64>, now: u64) -> Seq<u64>
    decreases times.len(),
{
    if times.len() == 0 {
        Seq::empty()
    } else {
        let earlier = counted(times.drop_last(), now);
        if counts(times.last(), now) {
            earlier.push(times.last())
        } else {
            earlier
        }
    }
}

fn keep_counted(times: &Vec<u64>, now: u64) -> (kept: Vec<u64>)
    ensures
        kept@ == counted(times@, now),
        kept@.len() <= times@.len(),
{
    let mut kept: Vec<u64> = Vec::new();
    for i in 0..times.len()
        invariant
            kept@ == counted(times@.take(i as int), now),
            kept@.len() <= i,
    {
        let time: u64 = times[i];
        assert(times@.take(i + 1).drop_last() =~= times@.take(i as int));
        assert(times@.take(i + 1).last() == time);
        if now < time || now - time < IPC_RESTART_WINDOW_NANOS {
            kept.push(time);
        }
    }
    assert(times@.take(times@.len() as int) =~= times@);
    kept
}

/// What the supervisor does next.
#[derive(Debug)]
pub enum SupervisorPhase {
    StartServer,
    /// It waits until the server ends or the service is to shut down.
    Wait,
    Pause { delay_ms: u64 },
    RebuildServer,
    StopServer,
    Finished { result: Result<(), String> },
}

/// The supervisor: the restarts that still count, at the last of them, and how
/// many attempts there were since none counted.
#[derive(Debug)]
pub struct Supervisor {
    pub phase: SupervisorPhase,
    pub restarts: Vec<u64>,
    pub attempts: u32,
}

/// What happened to the supervisor. A failure carries the text of its error.
#[derive(Debug)]
pub enum SupervisorEvent {
    Done,
    Failed(String),
    ShutdownRequested,
    /// The server ended at this time, in nanoseconds.
    ServerEnded { now: u64 },
}

impl Supervisor {
    /// What holds of a supervisor at every time.
    pub open spec fn well_formed(&self) -> bool {
        !(self.phase is Finished) ==> self.restarts@.len() <= IPC_MAX_RESTARTS
    }
}

/// Whether an event can happen in a phase.
pub open spec fn supervisor_event_fits(phase: SupervisorPhase, event: SupervisorEvent) -> bool {
    match phase {
        SupervisorPhase::Wait => event is ShutdownRequested || event is ServerEnded,
        SupervisorPhase::Pause { .. } => event is Done,
        SupervisorPhase::Finished { .. } => false,
        _ => event is Done || event is Failed,
    }
}

/// The restarts that count once the server has ended at `now`.
pub open spec fn restarts_with(restarts: Seq<u64>, now: u64) -> Seq<u64> {
    counted(restarts, now).push(now)
}

/// The attempts that were made before the one that follows an end at `now`: none
/// where no restart counts any more.
pub open spec fn attempts_before(restarts: Seq<u64>, attempts: u32, now: u64) -> u32 {
    if counted(restarts, now).len() == 0 {
        0
    } else {
        attempts
    }
}

/// What follows the end of a server.
pub open spec fn recovery_follows(before: Supervisor, now: u64, after: Supervisor) -> bool {
    let restarts = restarts_with(before.restarts@, now);
    let attempts = attempts_before(before.restarts@, before.attempts, now);
    &&& after.restarts@ == restarts
    &&& if restarts.len() > IPC_MAX_RESTARTS {
        &&& after.attempts == attempts
        &&& after.phase matches SupervisorPhase::Finished { result: Err(message) } && message@
            == "IPC server restarted "@ + decimal(restarts.len()) + " times in "@ + decimal(
            IPC_RESTART_WINDOW_SECS as nat,
        ) + "s"@
    } else {
        &&& after.attempts == attempts + 1
        &&& after.phase == (if backoff(attempts as nat) == 0 {
            SupervisorPhase::RebuildServer
        } else {
            SupervisorPhase::Pause { delay_ms: backoff(attempts as nat) as u64 }
        })
    }
}

/// What becomes of a supervisor, and what the service says of itself meanwhile,
/// one after the other: before a supervisor gives up, it says that it recovers.
pub open spec fn supervision_follows(
    before: Supervisor,
    event: SupervisorEvent,
    after: Supervisor,
    told: Seq<ServiceLifecycleState>,
) -> bool {
    match (before.phase, event) {
        (SupervisorPhase::StartServer, SupervisorEvent::Failed(error)) => {
            &&& after == Supervisor { phase: after.phase, ..before }
            &&& after.phase matches SupervisorPhase::Finished { result: Err(message) } && message@
                == "failed to start IPC server: "@ + error@
            &&& told == seq![ServiceLifecycleState::Fatal]
        },
        (SupervisorPhase::StartServer, _) => {
            &&& after == Supervisor { phase: SupervisorPhase::Wait, ..before }
            &&& told == seq![ServiceLifecycleState::Running]
        },
        (SupervisorPhase::Wait, SupervisorEvent::ServerEnded { now }) => {
            &&& recovery_follows(before, now, after)
            &&& told == (if after.phase is Finished {
                seq![ServiceLifecycleState::RecoveringIpc, ServiceLifecycleState::Fatal]
            } else {
                seq![ServiceLifecycleState::RecoveringIpc]
            })
        },
        (SupervisorPhase::Wait, _) => {
            &&& after == Supervisor { phase: SupervisorPhase::StopServer, ..before }
            &&& told.len() == 0
        },
        (SupervisorPhase::Pause { .. }, _) => {
            &&& after == Supervisor { phase: SupervisorPhase::RebuildServer, ..before }
            &&& told.len() == 0
        },
        (SupervisorPhase::RebuildServer, SupervisorEvent::Failed(error)) => {
            &&& after == Supervisor { phase: after.phase, ..before }
            &&& after.phase matches SupervisorPhase::Finished { result: Err(message) } && message@
                == "failed to rebuild IPC server: "@ + error@
            &&& told == seq![ServiceLifecycleState::Fatal]
        },
        (SupervisorPhase::RebuildServer, _) => {
            &&& after == Supervisor { phase: SupervisorPhase::Wait, ..before }
            &&& told == seq![ServiceLifecycleState::Running]
        },
        (SupervisorPhase::StopServer, SupervisorEvent::Failed(error)) => {
            &&& after == Supervisor {
                phase: SupervisorPhase::Finished { result: Err(error) },
                ..before
            }
            &&& told.len() == 0
        },
        (SupervisorPhase::StopServer, _) => {
            &&& after == Supervisor {
                phase: SupervisorPhase::Finished { result: Ok(()) },
                ..before
            }
            &&& told.len() == 0
        },
        (SupervisorPhase::Finished { .. }, _) => false,
    }
}

/// A supervisor that is to start the server, of a service that is starting.
pub fn begin_supervision() -> (begun: (Supervisor, ServiceLifecycleState))
    ensures
        begun.0.phase is StartServer,
        begun.0.restarts@.len() == 0,
        begun.0.attempts == 0,
        begun.0.well_formed(),
        begun.1 == ServiceLifecycleState::Starting,
        supervision_begins(begun.0, begun.1),
{
    (
        Supervisor { phase: SupervisorPhase::StartServer, restarts: Vec::new(), attempts: 0 },
        ServiceLifecycleState::Starting,
    )
}

fn recover(before: Supervisor, now: u64) -> (after: Supervisor)
    requires
        before.restarts@.len() <= IPC_MAX_RESTARTS,
        before.attempts < u32::MAX,
    ensures
        recovery_follows(before, now, after),
        after.well_formed(),
{
    let mut restarts: Vec<u64> = keep_counted(&before.restarts, now);
    let attempts: u32 = if restarts.len() == 0 {
        0
    } else {
        before.attempts
    };
    restarts.push(now);
    if restarts.len() > IPC_MAX_RESTARTS {
        let count: String = decimal_text(restarts.len() as u128);
        let seconds: String = decimal_text(IPC_RESTART_WINDOW_SECS as u128);
        let message: String = joined("IPC server restarted ", count.as_str()).concat(
            " times in ",
        ).concat(seconds.as_str()).concat("s");
        return Supervisor {
            phase: SupervisorPhase::Finished { result: Err(message) },
            restarts,
            attempts,
        };
    }
    let delay_ms: u64 = ipc_backoff_delay(attempts);
    let phase: SupervisorPhase = if delay_ms == 0 {
        SupervisorPhase::RebuildServer
    } else {
        SupervisorPhase::Pause { delay_ms }
    };
    Supervisor { phase, restarts, attempts: attempts + 1 }
}

fn tell(state: ServiceLifecycleState) -> (told: Vec<ServiceLifecycleState>)
    ensures
        told@ == seq![state],
{
    let told: Vec<ServiceLifecycleState> = vec![state];
    assert(told@ =~= seq![state]);
    told
}

/// Decides what follows an event of the supervisor, and what the service is to
/// say of itself, one after the other. The attempts must be countable.
pub fn run_ipc_supervisor_until_shutdown(before: Supervisor, event: SupervisorEvent) -> (followed: (
    Supervisor,
    Vec<ServiceLifecycleState>,
))
    requires
        before.well_formed(),
        supervisor_event_fits(before.phase, event),
        event is ServerEnded ==> before.attempts < u32::MAX,
    ensures
        supervision_follows(before, event, followed.0, followed.1@),
        followed.0.well_formed(),
{
    let Supervisor { phase, restarts, attempts } = before;
    match (phase, event) {
        (SupervisorPhase::StartServer, SupervisorEvent::Failed(error)) => (
            Supervisor {
                phase: SupervisorPhase::Finished {
                    result: Err(joined("failed to start IPC server: ", error.as_str())),
                },
                restarts,
                attempts,
            },
            tell(ServiceLifecycleState::Fatal),
        ),
        (SupervisorPhase::StartServer, _) => (
            Supervisor { phase: SupervisorPhase::Wait, restarts, attempts },
            tell(ServiceLifecycleState::Running),
        ),
        (SupervisorPhase::Wait, SupervisorEvent::ServerEnded { now }) => {
            let after: Supervisor = recover(
                Supervisor { phase: SupervisorPhase::Wait, restarts, attempts },
                now,
            );
            let mut told: Vec<ServiceLifecycleState> = tell(ServiceLifecycleState::RecoveringIpc);
            if let SupervisorPhase::Finished { .. } = &after.phase {
                told.push(ServiceLifecycleState::Fatal);
                assert(told@ =~= seq![
                    ServiceLifecycleState::RecoveringIpc,
                    ServiceLifecycleState::Fatal,
                ]);
            }
            (after, told)
        },
        (SupervisorPhase::Wait, _) => (
            Supervisor { phase: SupervisorPhase::StopServer, restarts, attempts },
            Vec::new(),
        ),
        (SupervisorPhase::Pause { .. }, _) => (
            Supervisor { phase: SupervisorPhase::RebuildServer, restarts, attempts },
            Vec::new(),
        ),
        (SupervisorPhase::RebuildServer, SupervisorEvent::Failed(error)) => (
            Supervisor {
                phase: SupervisorPhase::Finished {
                    result: Err(joined("failed to rebuild IPC server: ", error.as_str())),
                },
                restarts,
                attempts,
            },
            tell(ServiceLifecycleState::Fatal),
        ),
        (SupervisorPhase::RebuildServer, _) => (
            Supervisor { phase: SupervisorPhase::Wait, restarts, attempts },
            tell(ServiceLifecycleState::Running),
        ),
        (SupervisorPhase::StopServer, SupervisorEvent::Failed(error)) => (
            Supervisor {
                phase: SupervisorPhase::Finished { result: Err(error) },
                restarts,
                attempts,
            },
            Vec::new(),
        ),
        (SupervisorPhase::StopServer, _) => (
            Supervisor { phase: SupervisorPhase::Finished { result: Ok(()) }, restarts, attempts },
            Vec::new(),
        ),
        (finished, _) => (Supervisor { phase: finished, restarts, attempts }, Vec::new()),
    }
}

/// The restarts that count after the server has ended at these times.
pub open spec fn restarts_after(ends: Seq<u64>) -> Seq<u64>
    decreases ends.len(),
{
    if ends.len() == 0 {
        Seq::empty()
    } else {
        restarts_with(restarts_after(ends.drop_last()), ends.last())
    }
}

/// Whether no time comes before an earlier one.
pub open spec fn in_order(times: Seq<u64>) -> bool {
    forall|i: int, j: int| 0 <= i <= j < times.len() ==> times[i] <= times[j]
}

/// What counted at no earlier time does not count later either.
proof fn counting_twice(times: Seq<u64>, earlier: u64, later: u64)
    requires
        earlier <= later,
    ensures
        counted(counted(times, earlier), later) == counted(times, later),
    decreases times.len(),
{
    if times.len() > 0 {
        counting_twice(times.drop_last(), earlier, later);
        let first = counted(times.drop_last(), earlier);
        assert(first.push(times.last()).drop_last() =~= first);
    }
}

/// The restarts that the supervisor counts are exactly those of the last window:
/// none is forgotten, and none is counted longer.
pub proof fn restarts_are_counted_exactly(ends: Seq<u64>)
    requires
        ends.len() > 0,
        in_order(ends),
    ensures
        restarts_after(ends) == counted(ends, ends.last()),
    decreases ends.len(),
{
    let before = ends.drop_last();
    if before.len() > 0 {
        assert(before.last() == ends[before.len() - 1]);
        assert(in_order(before)) by {
            assert forall|i: int, j: int| 0 <= i <= j < before.len() implies before[i]
                <= before[j] by {
                assert(before[i] == ends[i] && before[j] == ends[j]);
            }
        }
        restarts_are_counted_exactly(before);
        counting_twice(before, before.last(), ends.last());
    } else {
        assert(restarts_after(before) =~= before);
    }
}

/// Whether `states` are those of one supervision, `events` being what happened.
pub open spec fn is_supervision(
    states: Seq<Supervisor>,
    events: Seq<SupervisorEvent>,
    told: Seq<Seq<ServiceLifecycleState>>,
) -> bool {
    &&& states.len() == events.len() + 1
    &&& told.len() == events.len()
    &&& states[0].phase is StartServer
    &&& states[0].restarts@.len() == 0
    &&& forall|i: int|
        #![trigger events[i]]
        0 <= i < events.len() ==> {
            &&& supervisor_event_fits(states[i].phase, events[i])
            &&& supervision_follows(states[i], events[i], states[i + 1], told[i])
        }
}

/// The times at which the server ended.
pub open spec fn ends_of(events: Seq<SupervisorEvent>) -> Seq<u64>
    decreases events.len(),
{
    if events.len() == 0 {
        Seq::empty()
    } else {
        match events.last() {
            SupervisorEvent::ServerEnded { now } => ends_of(events.drop_last()).push(now),
            _ => ends_of(events.drop_last()),
        }
    }
}

proof fn supervision_counts_every_end(
    states: Seq<Supervisor>,
    events: Seq<SupervisorEvent>,
    told: Seq<Seq<ServiceLifecycleState>>,
)
    requires
        is_supervision(states, events, told),
    ensures
        states.last().restarts@ == restarts_after(ends_of(events)),
        states.last().well_formed(),
    decreases events.len(),
{
    if events.len() > 0 {
        let last = events.len() - 1;
        let earlier_states = states.drop_last();
        let earlier_events = events.drop_last();
        let earlier_told = told.drop_last();
        assert(is_supervision(earlier_states, earlier_events, earlier_told)) by {
            assert forall|i: int|
                #![trigger earlier_events[i]]
                0 <= i < earlier_events.len() implies {
                &&& supervisor_event_fits(earlier_states[i].phase, earlier_events[i])
                &&& supervision_follows(
                    earlier_states[i],
                    earlier_events[i],
                    earlier_states[i + 1],
                    earlier_told[i],
                )
            } by {
                assert(earlier_events[i] == events[i]);
            }
        }
        supervision_counts_every_end(earlier_states, earlier_events, earlier_told);
        let event = events[last];
        assert(earlier_states.last() == states[last]);
        let ends = ends_of(earlier_events);
        if let SupervisorEvent::ServerEnded { now } = event {
            assert(ends.push(now).drop_last() =~= ends);
            assert(ends.push(now).last() == now);
        }
    } else {
        assert(states.last().restarts@ =~= Seq::empty());
    }
}

/// A supervisor that has not given up has seen the server end at most ten times
/// within the last window.
pub proof fn supervised_restarts_are_bounded(
    states: Seq<Supervisor>,
    events: Seq<SupervisorEvent>,
    told: Seq<Seq<ServiceLifecycleState>>,
)
    requires
        is_supervision(states, events, told),
        in_order(ends_of(events)),
        ends_of(events).len() > 0,
        !(states.last().phase is Finished),
    ensures
        counted(ends_of(events), ends_of(events).last()).len() <= IPC_MAX_RESTARTS,
{
    supervision_counts_every_end(states, events, told);
    restarts_are_counted_exactly(ends_of(events));
}

/// After a window without a restart, the server is rebuilt without a pause.
pub proof fn quiet_window_resets_backoff(before: Supervisor, now: u64, after: Supervisor)
    requires
        recovery_follows(before, now, after),
        counted(before.restarts@, now).len() == 0,
    ensures
        after.phase is RebuildServer,
        after.attempts == 1,
        after.restarts@ == seq![now],
{
    assert(restarts_with(before.restarts@, now) =~= seq![now]);
}

/// The first attempt is made at once, the second after a tenth of a second, and each
/// further one after twice the pause of the one before it, up to half a second.
pub proof fn pauses_double_up_to_half_a_second(attempt: nat)
    ensures
        backoff(0) == 0,
        backoff(1) == 100,
        attempt >= 1 && 2 * backoff(attempt) <= 500 ==> backoff(attempt + 1) == 2 * backoff(
            attempt,
        ),
        attempt >= 1 && 2 * backoff(attempt) > 500 ==> backoff(attempt + 1) == 500,
        attempt >= 4 ==> backoff(attempt) == 500,
{
    reveal_with_fuel(backoff, 3);
    if attempt >= 4 {
        backoff_is_capped(attempt);
    }
}

/// The ends of the server that count are those of the last ten seconds, none of them left
/// out and in their order.
pub proof fn ends_of_the_last_ten_seconds_count(times: Seq<u64>, now: u64)
    ensures
        counted(times, now) == times.filter(|time: u64| now - time < 10000000000),
    decreases times.len(),
{
    reveal(Seq::filter);
    if times.len() > 0 {
        ends_of_the_last_ten_seconds_count(times.drop_last(), now);
    }
}

/// What follows when the server ends. With ten earlier ends in the last ten seconds the
/// supervisor gives up and tells how many there were. With fewer it rebuilds the server:
/// at once where none counts, and else after a pause that grows with the attempts.
pub proof fn server_is_rebuilt_unless_it_ends_too_often(
    before: Supervisor,
    now: u64,
    after: Supervisor,
    told: Seq<ServiceLifecycleState>,
)
    requires
        before.phase is Wait,
        supervision_follows(before, SupervisorEvent::ServerEnded { now }, after, told),
    ensures
        ({
            let earlier = before.restarts@.filter(|time: u64| now - time < 10000000000);
            let attempts = before.attempts;
            &&& after.restarts@ == earlier.push(now)
            &&& earlier.len() >= 10 ==> {
                &&& after.phase matches SupervisorPhase::Finished { result: Err(message) }
                    && message@ == "IPC server restarted "@ + decimal(earlier.len() + 1)
                    + " times in 10s"@
                &&& told == seq![
                    ServiceLifecycleState::RecoveringIpc,
                    ServiceLifecycleState::Fatal,
                ]
            }
            &&& earlier.len() < 10 ==> told == seq![ServiceLifecycleState::RecoveringIpc]
            &&& earlier.len() == 0 ==> after.phase is RebuildServer && after.attempts == 1
            &&& 0 < earlier.len() < 10 ==> {
                &&& after.attempts == attempts + 1
                &&& attempts == 0 ==> after.phase is RebuildServer
                &&& attempts > 0 ==> after.phase == (SupervisorPhase::Pause {
                    delay_ms: if attempts == 1 {
                        100
                    } else if attempts == 2 {
                        200
                    } else if attempts == 3 {
                        400
                    } else {
                        500
                    },
                })
            }
        }),
{
    ends_of_the_last_ten_seconds_count(before.restarts@, now);
    let earlier = before.restarts@.filter(|time: u64| now - time < 10000000000);
    let attempts = before.attempts as nat;
    reveal_with_fuel(backoff, 5);
    if attempts >= 4 {
        backoff_is_capped(attempts);
    }
    if earlier.len() >= 10 {
        reveal_with_fuel(decimal, 3);
        reveal_strlit(" times in ");
        reveal_strlit("s");
        reveal_strlit(" times in 10s");
        let count = "IPC server restarted "@ + decimal(earlier.len() + 1);
        assert(decimal(10) =~= seq!['1', '0']);
        assert(" times in "@ + decimal(10) + "s"@ =~= " times in 10s"@);
        assert(count + " times in "@ + decimal(10) + "s"@ =~= count + (" times in "@ + decimal(10)
            + "s"@));
    }
}

/// A supervision ends only for a reason, which its result tells: the server could not be
/// started or rebuilt, it ended too often, or the service was to shut down, and then the
/// server was stopped. The service is fatally broken in all cases but the last.
pub proof fn supervision_ends_for_a_reason(
    states: Seq<Supervisor>,
    events: Seq<SupervisorEvent>,
    told: Seq<Seq<ServiceLifecycleState>>,
    result: Result<(), String>,
)
    requires
        is_supervision(states, events, told),
        states.last().phase == (SupervisorPhase::Finished { result }),
    ensures
        ({
            let last = events.len() - 1;
            let shutting_down = last > 0 && events[last - 1] is ShutdownRequested;
            &&& last >= 0
            &&& match events[last] {
                SupervisorEvent::Done => shutting_down && result is Ok,
                SupervisorEvent::Failed(error) => result matches Err(message) && message@ == (
                if last == 0 {
                    "failed to start IPC server: "@ + error@
                } else if shutting_down {
                    error@
                } else {
                    "failed to rebuild IPC server: "@ + error@
                }),
                SupervisorEvent::ServerEnded { .. } => result is Err,
                SupervisorEvent::ShutdownRequested => false,
            }
            &&& shutting_down ==> told[last].len() == 0
            &&& !shutting_down ==> told[last].len() > 0 && told[last].last()
                == ServiceLifecycleState::Fatal
        }),
{
    let last = events.len() - 1;
    assert(last >= 0);
    let _ = events[last];
    if last > 0 {
        let _ = events[last - 1];
    }
}

/// As long as it has not ended, a supervision waits for its server once that was started
/// or rebuilt, and then says that it runs; a shutdown stops the server, and a pause is
/// followed by the rebuild it was for. None of this changes which restarts are counted.
pub proof fn supervision_goes_on(
    states: Seq<Supervisor>,
    events: Seq<SupervisorEvent>,
    told: Seq<Seq<ServiceLifecycleState>>,
    at: int,
)
    requires
        is_supervision(states, events, told),
        0 <= at < events.len(),
        !(states[at + 1].phase is Finished),
    ensures
        events[at] is Done && !(states[at].phase is Pause) ==> {
            &&& at == 0 || states[at].phase is RebuildServer
            &&& states[at + 1].phase is Wait
            &&& told[at] == seq![ServiceLifecycleState::Running]
        },
        states[at].phase is Pause ==> events[at] is Done && states[at + 1].phase is RebuildServer
            && told[at].len() == 0,
        events[at] is ShutdownRequested ==> states[at].phase is Wait && states[at + 1].phase
            is StopServer && told[at].len() == 0,
        !(events[at] is Failed),
        !(events[at] is ServerEnded) ==> states[at + 1].restarts == states[at].restarts && states[at
            + 1].attempts == states[at].attempts,
{
    let _ = events[at];
    if at > 0 {
        let _ = events[at - 1];
    }
}

/// Whether a supervision begins like this.
pub open spec fn supervision_begins(begun: Supervisor, told: ServiceLifecycleState) -> bool {
    &&& is_supervision(seq![begun], Seq::empty(), Seq::empty())
    &&& begun.attempts == 0
    &&& told == ServiceLifecycleState::Starting
}

/// A supervision begins by starting the server, with no restart to count, and the service
/// says that it is starting.
pub proof fn supervision_begins_by_starting(begun: Supervisor, told: ServiceLifecycleState)
    requires
        supervision_begins(begun, told),
    ensures
        begun.phase is StartServer,
        begun.restarts@.len() == 0,
        begun.attempts == 0,
        told == ServiceLifecycleState::Starting,
{
    assert(seq![begun][0] == begun);
}

} // verus!
