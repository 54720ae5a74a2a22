//! The exclusion that lets one repair of the service run at a time.
use crate::native::error_already_exists;
use crate::text::joined;
use vstd::prelude::*;
use vstd::string::*;

verus! {

/// The exit code of a program that finds a repair in progress.
pub const REPAIR_IN_PROGRESS_EXIT_CODE: i32 = 75;

/// The mode of the file that is locked on Unix.
pub const REPAIR_LOCK_MODE: u32 = 0o600;

/// The exclusion, held. `H` is what holds it: a locked file, or a mutex.
#[derive(Debug)]
pub struct ServiceRepairGate<H> {
    pub holder: H,
}

/// The way to the exclusion on Unix, where a file is locked.
#[derive(Debug)]
pub enum GateAcquisition<H> {
    PrepareDirectory,
    OpenFile,
    SecureFile { file: H },
    LockFile { file: H },
    /// The exclusion, or none where another repair holds it.
    Finished { result: Result<Option<ServiceRepairGate<H>>, String> },
}

/// How a step on that way ended. A failure carries the text of its error.
#[derive(Debug)]
pub enum GateEvent<H> {
    Done,
    Opened(H),
    WouldBlock,
    Failed(String),
}

/// Whether an event can end a step.
pub open spec fn gate_event_fits<H>(pending: GateAcquisition<H>, event: GateEvent<H>) -> bool {
    match pending {
        GateAcquisition::OpenFile => event is Opened || event is Failed,
        GateAcquisition::LockFile { .. } => event is Done || event is WouldBlock || event is Failed,
        GateAcquisition::Finished { .. } => false,
        _ => event is Done || event is Failed,
    }
}

/// What follows when the pending step ends. `shown` is the file, as messages show
/// it.
pub open spec fn gate_follows<H>(
    shown: Seq<char>,
    pending: GateAcquisition<H>,
    event: GateEvent<H>,
    next: GateAcquisition<H>,
) -> bool {
    match (pending, event) {
        (GateAcquisition::PrepareDirectory, GateEvent::Failed(error)) => next == (
        GateAcquisition::<H>::Finished { result: Err(error) }),
        (GateAcquisition::PrepareDirectory, _) => next is OpenFile,
        (GateAcquisition::OpenFile, GateEvent::Opened(file)) => next
            == GateAcquisition::SecureFile { file },
        (GateAcquisition::OpenFile, GateEvent::Failed(error)) => next matches
            GateAcquisition::Finished { result: Err(message) } && message@
            == "failed to open service repair gate "@ + shown + ": "@ + error@,
        (GateAcquisition::SecureFile { .. }, GateEvent::Failed(error)) => next matches
            GateAcquisition::Finished { result: Err(message) } && message@
            == "failed to secure service repair gate "@ + shown + ": "@ + error@,
        (GateAcquisition::SecureFile { file }, _) => next == GateAcquisition::LockFile { file },
        (GateAcquisition::LockFile { .. }, GateEvent::Failed(error)) => next matches
            GateAcquisition::Finished { result: Err(message) } && message@
            == "failed to lock service repair gate "@ + shown + ": "@ + error@,
        (GateAcquisition::LockFile { .. }, GateEvent::WouldBlock) => next == (
        GateAcquisition::<H>::Finished { result: Ok(None) }),
        (GateAcquisition::LockFile { file }, _) => next == (GateAcquisition::Finished {
            result: Ok(Some(ServiceRepairGate { holder: file })),
        }),
        _ => false,
    }
}

fn fail<H>(lead: &str, shown: &str, error: &str) -> (next: GateAcquisition<H>)
    ensures
        next matches GateAcquisition::Finished { result: Err(message) } && message@ == lead@
            + shown@ + ": "@ + error@,
{
    GateAcquisition::Finished { result: Err(joined(lead, shown).concat(": ").concat(error)) }
}

/// Decides what follows when the pending step to the exclusion has ended.
pub fn acquire_service_repair_gate<H>(
    shown: &str,
    pending: GateAcquisition<H>,
    event: GateEvent<H>,
) -> (next: GateAcquisition<H>)
    requires
        gate_event_fits(pending, event),
    ensures
        gate_follows(shown@, pending, event, next),
{
    match (pending, event) {
        (GateAcquisition::PrepareDirectory, GateEvent::Failed(error)) => GateAcquisition::Finished {
            result: Err(error),
        },
        (GateAcquisition::PrepareDirectory, _) => GateAcquisition::OpenFile,
        (GateAcquisition::OpenFile, GateEvent::Opened(file)) => GateAcquisition::SecureFile {
            file,
        },
        (GateAcquisition::OpenFile, GateEvent::Failed(error)) => fail(
            "failed to open service repair gate ",
            shown,
            error.as_str(),
        ),
        (GateAcquisition::SecureFile { .. }, GateEvent::Failed(error)) => fail(
            "failed to secure service repair gate ",
            shown,
            error.as_str(),
        ),
        (GateAcquisition::SecureFile { file }, _) => GateAcquisition::LockFile { file },
        (GateAcquisition::LockFile { .. }, GateEvent::Failed(error)) => fail(
            "failed to lock service repair gate ",
            shown,
            error.as_str(),
        ),
        (GateAcquisition::LockFile { .. }, GateEvent::WouldBlock) => GateAcquisition::Finished {
            result: Ok(None),
        },
        (GateAcquisition::LockFile { file }, _) => GateAcquisition::Finished {
            result: Ok(Some(ServiceRepairGate { holder: file })),
        },
        (other, _) => other,
    }
}

/// The name of the mutex that excludes other repairs of a channel on Windows.
pub fn repair_mutex_name(channel_id: &str) -> (name: String)
    ensures
        name@ == "Global\\clash-service-"@ + channel_id@ + "-repair"@,
        name@ == mutex_name(channel_id@),
{
    joined("Global\\clash-service-", channel_id).concat("-repair")
}

/// What creating the mutex came to.
#[derive(Debug)]
pub enum MutexGate<H> {
    Held(ServiceRepairGate<H>),
    /// Another repair has the mutex; this handle to it is to be closed.
    Busy { close: H },
    Failed(String),
}

/// What creating the mutex comes to.
pub open spec fn mutex_follows<H>(
    created: Result<H, String>,
    last_error: u32,
    gate: MutexGate<H>,
) -> bool {
    match created {
        Err(error) => gate matches MutexGate::Failed(message) && message@
            == "failed to create the service repair mutex: "@ + error@,
        Ok(mutex) => if last_error == 183 {
            gate == (MutexGate::Busy { close: mutex })
        } else {
            gate == MutexGate::Held(ServiceRepairGate { holder: mutex })
        },
    }
}

/// Decides whether the exclusion is held on Windows: by the mutex, if one was made,
/// and by the code that Windows left behind, which tells whether the mutex was
/// there before.
pub fn acquire_repair_mutex<H>(created: Result<H, String>, last_error: u32) -> (gate: MutexGate<H>)
    ensures
        mutex_follows(created, last_error, gate),
{
    match created {
        Err(error) => MutexGate::Failed(
            joined("failed to create the service repair mutex: ", error.as_str()),
        ),
        Ok(mutex) => {
            if last_error == error_already_exists() {
                MutexGate::Busy { close: mutex }
            } else {
                MutexGate::Held(ServiceRepairGate { holder: mutex })
            }
        },
    }
}

/// What a program does before it repairs.
#[derive(Debug)]
pub enum GateEntry<H> {
    Enter(ServiceRepairGate<H>),
    Leave { message: &'static str, exit_code: i32 },
}

/// What a program does before it repairs: where another repair runs, it leaves.
pub fn enter_repair_gate<H>(acquired: Option<ServiceRepairGate<H>>) -> (entry: GateEntry<H>)
    ensures
        match acquired {
            Some(gate) => entry == GateEntry::Enter(gate),
            None => entry matches GateEntry::Leave { message, exit_code } && message@
                == "Service repair is already in progress"@ && exit_code
                == REPAIR_IN_PROGRESS_EXIT_CODE,
        },
        entry_follows(acquired, entry),
{
    match acquired {
        Some(gate) => GateEntry::Enter(gate),
        None => GateEntry::Leave {
            message: "Service repair is already in progress",
            exit_code: REPAIR_IN_PROGRESS_EXIT_CODE,
        },
    }
}

/// The exclusion is held only by what was locked: a file that was opened, secured and
/// locked without having to wait.
pub proof fn gate_is_held_by_a_lock<H>(
    shown: Seq<char>,
    pending: GateAcquisition<H>,
    event: GateEvent<H>,
    gate: ServiceRepairGate<H>,
)
    requires
        gate_event_fits(pending, event),
        gate_follows(
            shown,
            pending,
            event,
            GateAcquisition::Finished { result: Ok(Some(gate)) },
        ),
    ensures
        pending == (GateAcquisition::LockFile { file: gate.holder }),
        event is Done,
{
}

/// Something that repairs do to the exclusion, of which the system keeps one: a
/// locked file, or a mutex with one name.
pub enum GateMove<H> {
    /// A repair tries to lock the file that it has opened.
    LockFile { file: H, event: GateEvent<H>, next: GateAcquisition<H> },
    /// A repair creates the mutex.
    CreateMutex { created: Result<H, String>, last_error: u32, decided: MutexGate<H> },
    /// A repair that holds the exclusion lets go of it.
    Release { gate: ServiceRepairGate<H> },
}

/// The exclusion that a move has given.
pub open spec fn gate_given<H>(done: GateMove<H>) -> Option<ServiceRepairGate<H>> {
    match done {
        GateMove::LockFile {
            next: GateAcquisition::Finished { result: Ok(Some(gate)) },
            ..
        } => Some(gate),
        GateMove::CreateMutex { decided: MutexGate::Held(gate), .. } => Some(gate),
        _ => None,
    }
}

/// Whether a move has found the exclusion held by another repair.
pub open spec fn found_busy<H>(done: GateMove<H>) -> bool {
    match done {
        GateMove::LockFile { next, .. } => next == (GateAcquisition::<H>::Finished {
            result: Ok(None),
        }),
        GateMove::CreateMutex { decided, .. } => decided is Busy,
        GateMove::Release { .. } => false,
    }
}

/// Whether the system itself failed in a move.
pub open spec fn system_failed<H>(done: GateMove<H>) -> bool {
    match done {
        GateMove::LockFile { event, .. } => event is Failed,
        GateMove::CreateMutex { created, .. } => created is Err,
        GateMove::Release { .. } => false,
    }
}

/// What a system does that keeps one lock, where `holder` has it: a file is locked
/// where none is, and would have to wait where one is; a mutex that is held was
/// there before; the holder can let go.
pub open spec fn system_keeps_one_lock<H>(holder: Option<H>, done: GateMove<H>) -> bool {
    match done {
        GateMove::LockFile { event, .. } => {
            &&& event is Done ==> holder is None
            &&& event is WouldBlock ==> holder is Some
        },
        GateMove::CreateMutex { created, last_error, .. } => created is Ok ==> (last_error == 183
            <==> holder is Some),
        GateMove::Release { gate } => holder == Some(gate.holder),
    }
}

/// Who has the lock after a move.
pub open spec fn holder_after<H>(holder: Option<H>, done: GateMove<H>) -> Option<H> {
    match done {
        GateMove::LockFile { file, event, .. } => if event is Done {
            Some(file)
        } else {
            holder
        },
        GateMove::CreateMutex { created, last_error, .. } => if created is Ok && last_error != 183 {
            Some(created->Ok_0)
        } else {
            holder
        },
        GateMove::Release { .. } => None,
    }
}

/// Whether a move is decided as the exclusion is.
pub open spec fn move_is_decided<H>(shown: Seq<char>, done: GateMove<H>) -> bool {
    match done {
        GateMove::LockFile { file, event, next } => {
            &&& gate_event_fits(GateAcquisition::LockFile { file }, event)
            &&& gate_follows(shown, GateAcquisition::LockFile { file }, event, next)
        },
        GateMove::CreateMutex { created, last_error, decided } => mutex_follows(
            created,
            last_error,
            decided,
        ),
        GateMove::Release { .. } => true,
    }
}

/// Whether `moves` are what repairs did to the exclusion, from the time on at which
/// nobody held it, `holders` being who had the lock before and after each.
pub open spec fn is_gate_history<H>(
    shown: Seq<char>,
    moves: Seq<GateMove<H>>,
    holders: Seq<Option<H>>,
) -> bool {
    &&& holders.len() == moves.len() + 1
    &&& holders[0] is None
    &&& forall|i: int|
        #![trigger moves[i]]
        0 <= i < moves.len() ==> {
            &&& move_is_decided(shown, moves[i])
            &&& system_keeps_one_lock(holders[i], moves[i])
            &&& holders[i + 1] == holder_after(holders[i], moves[i])
        }
}

/// How many repairs hold the exclusion after some moves.
pub open spec fn gates_held<H>(moves: Seq<GateMove<H>>) -> int
    decreases moves.len(),
{
    if moves.len() == 0 {
        0
    } else {
        gates_held(moves.drop_last()) + (if gate_given(moves.last()) is Some {
            1int
        } else if moves.last() is Release {
            -1int
        } else {
            0int
        })
    }
}

/// As long as the system keeps one lock, never two repairs hold the exclusion: there
/// is one where the lock is held, and none where it is not.
pub proof fn one_repair_at_a_time<H>(
    shown: Seq<char>,
    moves: Seq<GateMove<H>>,
    holders: Seq<Option<H>>,
)
    requires
        is_gate_history(shown, moves, holders),
    ensures
        gates_held(moves) == (if holders.last() is Some {
            1int
        } else {
            0int
        }),
    decreases moves.len(),
{
    if moves.len() > 0 {
        let earlier_moves = moves.drop_last();
        let earlier_holders = holders.drop_last();
        assert(is_gate_history(shown, earlier_moves, earlier_holders)) by {
            assert forall|i: int|
                #![trigger earlier_moves[i]]
                0 <= i < earlier_moves.len() implies {
                &&& move_is_decided(shown, earlier_moves[i])
                &&& system_keeps_one_lock(earlier_holders[i], earlier_moves[i])
                &&& earlier_holders[i + 1] == holder_after(earlier_holders[i], earlier_moves[i])
            } by {
                assert(earlier_moves[i] == moves[i]);
            }
        }
        one_repair_at_a_time(shown, earlier_moves, earlier_holders);
        let last = moves[moves.len() - 1];
        assert(earlier_holders.last() == holders[moves.len() - 1]);
    }
}

/// A repair that asks for the exclusion gets it at once where no repair holds it,
/// and is told at once that it is busy where one does, unless the system itself
/// fails; so it gets it again once the repair that held it has let go.
pub proof fn exclusion_is_given_when_it_is_free<H>(
    shown: Seq<char>,
    moves: Seq<GateMove<H>>,
    holders: Seq<Option<H>>,
    at: int,
)
    requires
        is_gate_history(shown, moves, holders),
        0 <= at < moves.len(),
        !(moves[at] is Release),
        !system_failed(moves[at]),
    ensures
        gates_held(moves.take(at)) == 0 ==> gate_given(moves[at]) is Some,
        gates_held(moves.take(at)) != 0 ==> found_busy(moves[at]),
        at > 0 && moves[at - 1] is Release ==> gate_given(moves[at]) is Some,
{
    let earlier_moves = moves.take(at);
    let earlier_holders = holders.take(at + 1);
    assert(is_gate_history(shown, earlier_moves, earlier_holders)) by {
        assert forall|i: int|
            #![trigger earlier_moves[i]]
            0 <= i < earlier_moves.len() implies {
            &&& move_is_decided(shown, earlier_moves[i])
            &&& system_keeps_one_lock(earlier_holders[i], earlier_moves[i])
            &&& earlier_holders[i + 1] == holder_after(earlier_holders[i], earlier_moves[i])
        } by {
            assert(earlier_moves[i] == moves[i]);
        }
    }
    one_repair_at_a_time(shown, earlier_moves, earlier_holders);
    assert(earlier_holders.last() == holders[at]);
    let _ = moves[at];
    if at > 0 {
        let _ = moves[at - 1];
    }
}

/// Whether `stages` are those of one way to the exclusion, `events` being how its steps
/// ended.
pub open spec fn is_acquisition<H>(
    shown: Seq<char>,
    stages: Seq<GateAcquisition<H>>,
    events: Seq<GateEvent<H>>,
) -> bool {
    &&& stages.len() == events.len() + 1
    &&& stages[0] is PrepareDirectory
    &&& forall|i: int|
        #![trigger events[i]]
        0 <= i < events.len() ==> {
            &&& gate_event_fits(stages[i], events[i])
            &&& gate_follows(shown, stages[i], events[i], stages[i + 1])
        }
}

/// The way to the exclusion prepares a directory, opens a file in it, secures it and
/// locks it. Where the lock is got, the file that was opened holds the exclusion; where it
/// would have to be waited for, there is none; and where a step fails, the failure is
/// told behind what failed.
pub proof fn acquisition_comes_to_what_its_steps_do<H>(
    shown: Seq<char>,
    stages: Seq<GateAcquisition<H>>,
    events: Seq<GateEvent<H>>,
    result: Result<Option<ServiceRepairGate<H>>, String>,
)
    requires
        is_acquisition(shown, stages, events),
        stages.last() == (GateAcquisition::Finished { result }),
    ensures
        0 < events.len() <= 4,
        events.len() > 1 ==> stages[1] is OpenFile,
        events.len() > 2 ==> events[1] is Opened && stages[2] is SecureFile,
        events.len() > 3 ==> stages[3] is LockFile,
        match events.last() {
            GateEvent::Done => events.len() == 4 && (result matches Ok(Some(gate)) && events[1]
                == GateEvent::Opened(gate.holder)),
            GateEvent::WouldBlock => events.len() == 4 && result == Ok::<
                Option<ServiceRepairGate<H>>,
                String,
            >(None),
            GateEvent::Opened(_) => false,
            GateEvent::Failed(error) => result matches Err(message) && message@ == (
            if events.len() == 1 {
                error@
            } else if events.len() == 2 {
                "failed to open service repair gate "@ + shown + ": "@ + error@
            } else if events.len() == 3 {
                "failed to secure service repair gate "@ + shown + ": "@ + error@
            } else {
                "failed to lock service repair gate "@ + shown + ": "@ + error@
            }),
        },
{
    assert(events.len() > 0);
    let _ = events[0];
    if events.len() > 1 {
        let _ = events[1];
    }
    if events.len() > 2 {
        let _ = events[2];
    }
    if events.len() > 3 {
        let _ = events[3];
    }
    if events.len() > 4 {
        let _ = events[4];
    }
}

/// The name of the mutex of a channel.
pub open spec fn mutex_name(channel_id: Seq<char>) -> Seq<char> {
    "Global\\clash-service-"@ + channel_id + "-repair"@
}

/// Each channel has a mutex of its own, which all sessions share: its name begins with
/// `Global\`, and names the channel.
pub proof fn channels_have_their_own_mutex(left: Seq<char>, right: Seq<char>)
    ensures
        "Global\\"@.is_prefix_of(mutex_name(left)),
        mutex_name(left).skip(21) == left + "-repair"@,
        mutex_name(left).take(21) == "Global\\clash-service-"@,
        mutex_name(left) == mutex_name(right) ==> left == right,
{
    reveal_strlit("Global\\");
    reveal_strlit("Global\\clash-service-");
    reveal_strlit("-repair");
    assert(mutex_name(left).subrange(0, 7) =~= "Global\\"@);
    assert(mutex_name(left).skip(21) =~= left + "-repair"@);
    assert(mutex_name(right).skip(21) =~= right + "-repair"@);
    assert(mutex_name(left).take(21) =~= "Global\\clash-service-"@);
    assert((left + "-repair"@).take(left.len() as int) =~= left);
    assert((right + "-repair"@).take(right.len() as int) =~= right);
    if mutex_name(left) == mutex_name(right) {
        assert((left + "-repair"@).len() == (right + "-repair"@).len());
    }
}

/// A mutex that was made holds the exclusion, unless Windows tells that it was there
/// before; then it is to be closed. One that was not made is a failure, which is told.
pub proof fn mutex_is_held_by_who_made_it<H>(mutex: H, last_error: u32, gate: MutexGate<H>)
    requires
        mutex_follows(Ok(mutex), last_error, gate),
    ensures
        last_error == 183 ==> (gate matches MutexGate::Busy { close } && close == mutex),
        last_error != 183 ==> (gate matches MutexGate::Held(held) && held.holder == mutex),
{
}

/// What a program does before it repairs.
pub open spec fn entry_follows<H>(
    acquired: Option<ServiceRepairGate<H>>,
    entry: GateEntry<H>,
) -> bool {
    match acquired {
        Some(gate) => entry == GateEntry::Enter(gate),
        None => entry matches GateEntry::Leave { message, exit_code } && message@
            == "Service repair is already in progress"@ && exit_code
            == REPAIR_IN_PROGRESS_EXIT_CODE,
    }
}

/// A program repairs exactly where it holds the exclusion, by the very holder that it
/// got; else it leaves with the code 75, which stands for a failure that may pass.
pub proof fn repair_needs_the_exclusion<H>(
    acquired: Option<ServiceRepairGate<H>>,
    entry: GateEntry<H>,
)
    requires
        entry_follows(acquired, entry),
    ensures
        acquired is Some <==> entry is Enter,
        acquired matches Some(gate) ==> (entry matches GateEntry::Enter(held) && held.holder
            == gate.holder),
        entry matches GateEntry::Leave { message, exit_code } ==> exit_code == 75 && message@
            == "Service repair is already in progress"@,
{
}

} // verus!
