//! The barrier that a test build puts into the application of a proxy: armed,
//! it holds the next application until it is released, so that a test can see
//! another request wait.
use vstd::prelude::*;

verus! {

/// The bit of a barrier that is armed.
pub const TEST_PROXY_ARMED: u8 = 1;

/// The bit of a barrier that an application of a proxy has entered.
pub const TEST_PROXY_ENTERED: u8 = 2;

/// The bit of a barrier behind which a start of a core waits.
pub const TEST_START_WAITING: u8 = 4;

/// The bit of a barrier that was released.
pub const TEST_PROXY_RELEASED: u8 = 8;

/// The barrier, as the bits that are set.
#[derive(Clone, Copy, Debug, PartialEq, Eq, Structural)]
pub struct ProxyBarrier {
    pub state: u8,
}

/// What is known of a barrier.
pub struct BarrierView {
    pub armed: bool,
    pub entered: bool,
    pub start_waiting: bool,
    pub released: bool,
}

/// A barrier of which nothing is known.
pub open spec fn idle() -> BarrierView {
    BarrierView { armed: false, entered: false, start_waiting: false, released: false }
}

/// A barrier that was armed, and nothing since.
pub open spec fn armed() -> BarrierView {
    BarrierView { armed: true, ..idle() }
}

impl View for ProxyBarrier {
    type V = BarrierView;

    open spec fn view(&self) -> BarrierView {
        BarrierView {
            armed: self.state & TEST_PROXY_ARMED == TEST_PROXY_ARMED,
            entered: self.state & TEST_PROXY_ENTERED == TEST_PROXY_ENTERED,
            start_waiting: self.state & TEST_START_WAITING == TEST_START_WAITING,
            released: self.state & TEST_PROXY_RELEASED == TEST_PROXY_RELEASED,
        }
    }
}

impl ProxyBarrier {
    /// No other bit is ever set.
    pub open spec fn well_formed(&self) -> bool {
        self.state < 16
    }

    /// A barrier that holds nothing.
    pub fn new() -> (barrier: ProxyBarrier)
        ensures
            barrier@ == idle(),
            barrier.well_formed(),
    {
        assert(0u8 & 1 == 0 && 0u8 & 2 == 0 && 0u8 & 4 == 0 && 0u8 & 8 == 0) by (bit_vector);
        ProxyBarrier { state: 0 }
    }
}

/// Arms a barrier, and forgets what it was before.
pub fn test_proxy_barrier_arm(barrier: &mut ProxyBarrier)
    ensures
        final(barrier)@ == armed(),
        final(barrier).well_formed(),
{
    assert(1u8 & 1 == 1 && 1u8 & 2 == 0 && 1u8 & 4 == 0 && 1u8 & 8 == 0) by (bit_vector);
    barrier.state = TEST_PROXY_ARMED;
}

/// Whether an application of a proxy is held: it is where the barrier was armed
/// and nothing has happened since. From then on it has been entered.
pub fn test_proxy_barrier_block_if_armed(barrier: &mut ProxyBarrier) -> (held: bool)
    requires
        old(barrier).well_formed(),
    ensures
        held == (old(barrier)@ == armed()),
        final(barrier)@ == (if held {
            BarrierView { entered: true, ..armed() }
        } else {
            old(barrier)@
        }),
        final(barrier).well_formed(),
        held == is_held(old(barrier)@),
        final(barrier)@ == entering(old(barrier)@),
{
    let state: u8 = barrier.state;
    assert(state < 16 ==> (state == 1 <==> state & 1 == 1 && state & 2 != 2 && state & 4 != 4
        && state & 8 != 8)) by (bit_vector);
    if barrier.state == TEST_PROXY_ARMED {
        assert(1u8 | 2u8 == 3u8 && 3u8 & 1 == 1 && 3u8 & 2 == 2 && 3u8 & 4 == 0 && 3u8 & 8 == 0)
            by (bit_vector);
        barrier.state = TEST_PROXY_ARMED | TEST_PROXY_ENTERED;
        true
    } else {
        false
    }
}

/// Notes that a start of a core waits behind the application that is held:
/// `lifecycle_locked` tells whether it does. Whether it was noted is handed back.
pub fn test_proxy_barrier_note_start_waiting(
    barrier: &mut ProxyBarrier,
    lifecycle_locked: bool,
) -> (noted: bool)
    requires
        old(barrier).well_formed(),
    ensures
        noted == (old(barrier)@.entered && !old(barrier)@.released && lifecycle_locked),
        final(barrier)@ == (if noted {
            BarrierView { start_waiting: true, ..old(barrier)@ }
        } else {
            old(barrier)@
        }),
        final(barrier).well_formed(),
        noted == is_noted(old(barrier)@, lifecycle_locked),
        final(barrier)@ == passing(old(barrier)@, lifecycle_locked),
{
    let state: u8 = barrier.state;
    assert(state & 2 == 0 <==> state & 2 != 2) by (bit_vector);
    assert(state & 8 != 0 <==> state & 8 == 8) by (bit_vector);
    assert(state < 16 ==> (state | 4) < 16 && (state | 4) & 4 == 4 && (state | 4) & 1 == state & 1
        && (state | 4) & 2 == state & 2 && (state | 4) & 8 == state & 8) by (bit_vector);
    if state & TEST_PROXY_ENTERED == 0 || state & TEST_PROXY_RELEASED != 0 {
        return false;
    }
    if lifecycle_locked {
        barrier.state = state | TEST_START_WAITING;
        true
    } else {
        false
    }
}

/// Whether what is waited for has happened: all of the bits are set.
pub fn test_proxy_barrier_wait(barrier: &ProxyBarrier, required: u8) -> (happened: bool)
    ensures
        happened == (barrier.state & required == required),
        required == TEST_PROXY_ENTERED ==> happened == barrier@.entered,
        required == TEST_START_WAITING ==> happened == barrier@.start_waiting,
        required == TEST_PROXY_RELEASED ==> happened == barrier@.released,
{
    barrier.state & required == required
}

/// Releases what a barrier holds.
pub fn test_proxy_barrier_release(barrier: &mut ProxyBarrier)
    requires
        old(barrier).well_formed(),
    ensures
        final(barrier)@ == (BarrierView { released: true, ..old(barrier)@ }),
        final(barrier)@ == releasing(old(barrier)@),
        final(barrier).well_formed(),
{
    let state: u8 = barrier.state;
    assert(state < 16 ==> (state | 8) < 16 && (state | 8) & 8 == 8 && (state | 8) & 1 == state & 1
        && (state | 8) & 2 == state & 2 && (state | 8) & 4 == state & 4) by (bit_vector);
    barrier.state = state | TEST_PROXY_RELEASED;
}

/// Forgets all that is known of a barrier.
pub fn test_proxy_barrier_reset(barrier: &mut ProxyBarrier)
    ensures
        final(barrier)@ == idle(),
        final(barrier).well_formed(),
{
    *barrier = ProxyBarrier::new();
}

/// A barrier that has been entered holds nothing more, whatever is noted or
/// released, until it is armed again.
pub proof fn entered_barrier_holds_nothing_more(barrier: BarrierView)
    requires
        barrier.entered,
    ensures
        barrier != armed(),
        (BarrierView { start_waiting: true, ..barrier }).entered,
        (BarrierView { released: true, ..barrier }).entered,
{
}

/// Whether an application of a proxy is held at a barrier.
pub open spec fn is_held(barrier: BarrierView) -> bool {
    barrier == armed()
}

/// What a barrier is once an application of a proxy has come to it.
pub open spec fn entering(barrier: BarrierView) -> BarrierView {
    if is_held(barrier) {
        BarrierView { entered: true, ..barrier }
    } else {
        barrier
    }
}

/// Whether it is noted at a barrier that a start waits.
pub open spec fn is_noted(barrier: BarrierView, lifecycle_locked: bool) -> bool {
    barrier.entered && !barrier.released && lifecycle_locked
}

/// What a barrier is once a start has come by.
pub open spec fn passing(barrier: BarrierView, lifecycle_locked: bool) -> BarrierView {
    if is_noted(barrier, lifecycle_locked) {
        BarrierView { start_waiting: true, ..barrier }
    } else {
        barrier
    }
}

/// What a barrier is once it is released.
pub open spec fn releasing(barrier: BarrierView) -> BarrierView {
    BarrierView { released: true, ..barrier }
}

/// An armed barrier holds the first application that comes to it and no other. A start
/// that waits is noted while one is held, and only then; the release ends that. An idle
/// barrier holds and notes nothing.
pub proof fn barrier_holds_one_application(locked: bool)
    ensures
        is_held(armed()),
        ({
            let entered = entering(armed());
            &&& entered.armed && entered.entered && !entered.start_waiting && !entered.released
            &&& !is_held(entered)
            &&& entering(entered) == entered
            &&& is_noted(entered, true)
            &&& !is_noted(entered, false)
            &&& passing(entered, true).start_waiting
            &&& !is_noted(releasing(entered), locked)
            &&& releasing(passing(entered, true)).start_waiting
            &&& releasing(passing(entered, true)).released
        }),
        !is_noted(armed(), locked),
        !is_held(idle()),
        !is_noted(idle(), locked),
        entering(idle()) == idle(),
{
}

/// What comes to a barrier undoes nothing that was known of it, and tells nothing new but
/// its own: an application that it was entered, a start that one waits, a release that it
/// was released.
pub proof fn barrier_forgets_nothing(barrier: BarrierView, locked: bool)
    ensures
        ({
            let entered = entering(barrier);
            &&& entered.armed == barrier.armed && entered.start_waiting == barrier.start_waiting
            &&& entered.released == barrier.released
            &&& entered.entered <==> barrier.entered || barrier.armed && !barrier.start_waiting
                && !barrier.released
        }),
        ({
            let passed = passing(barrier, locked);
            &&& passed.armed == barrier.armed && passed.entered == barrier.entered
            &&& passed.released == barrier.released
            &&& passed.start_waiting <==> barrier.start_waiting || barrier.entered
                && !barrier.released && locked
        }),
        ({
            let released = releasing(barrier);
            &&& released.armed == barrier.armed && released.entered == barrier.entered
            &&& released.start_waiting == barrier.start_waiting
            &&& released.released
        }),
{
}

/// The four bits of a barrier, from the lowest on: armed, entered, a start waits,
/// released.
pub proof fn barrier_is_told_by_four_bits(barrier: ProxyBarrier)
    ensures
        barrier@.armed <==> (barrier.state as int) % 2 == 1,
        barrier@.entered <==> (barrier.state as int / 2) % 2 == 1,
        barrier@.start_waiting <==> (barrier.state as int / 4) % 2 == 1,
        barrier@.released <==> (barrier.state as int / 8) % 2 == 1,
{
    let state = barrier.state;
    assert((state & 1 == 1) == (state % 2 == 1) && (state & 2 == 2) == ((state / 2u8) % 2 == 1) && (
    state & 4 == 4) == ((state / 4u8) % 2 == 1) && (state & 8 == 8) == ((state / 8u8) % 2 == 1))
        by (bit_vector);
}

} // verus!
