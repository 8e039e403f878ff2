//! The bookkeeping of a shutdown test: every worker thread owns a clock, each
//! task ("warhead") arms the clock of the thread it is first polled on and
//! disarms that same clock when it is dropped. A clock that is destroyed while
//! some of its warheads are still armed means a task outlived the thread-local
//! data it refers to.
use vstd::prelude::*;
use vstd::multiset::Multiset;

verus! {

/// What the clocks report when shutdown was sequenced safely.
pub const SECONDS_TO_MIDNIGHT: usize = 100;

/// The number of warheads spawned.
pub const ARSENAL_SIZE: usize = 1600;

/// A worker thread's clock: its core id and how many warheads it armed.
#[derive(Clone, Copy, Debug)]
pub struct DoomsdayClock {
    pub core_id: usize,
    pub armed: usize,
}

/// What a clock reports when its thread-local data is destroyed.
#[derive(PartialEq, Eq, Structural, Clone, Copy, Debug)]
pub enum ClockVerdict {
    /// No warhead refers to this clock any more (or none was ever disarmed).
    Midnight,
    /// Exactly one armed warhead still refers to this clock.
    OneWarhead,
    /// This many armed warheads, more than one, still refer to this clock.
    Warheads(usize),
}

/// The verdict of a clock that armed `armed` warheads, `disarmed` of which were dropped.
pub open spec fn clock_verdict(armed: usize, disarmed: usize) -> ClockVerdict {
    if disarmed == 0 || armed - disarmed == 0 {
        ClockVerdict::Midnight
    } else if armed - disarmed == 1 {
        ClockVerdict::OneWarhead
    } else {
        ClockVerdict::Warheads((armed - disarmed) as usize)
    }
}

impl DoomsdayClock {
    /// The clock of the thread with core id `core_id`, with nothing armed.
    pub fn new(core_id: usize) -> (c: DoomsdayClock)
        ensures
            c.core_id == core_id,
            c.armed == 0,
    {
        DoomsdayClock { core_id, armed: 0 }
    }

    /// The verdict when the clock is destroyed after `disarmed` of its warheads
    /// were dropped; more than were armed is refused, as the subtraction overflows.
    pub fn verdict(&self, disarmed: usize) -> (v: ClockVerdict)
        requires
            disarmed <= self.armed,
        ensures
            v == clock_verdict(self.armed, disarmed),
            v == ClockVerdict::Midnight <==> (disarmed == 0 || disarmed == self.armed),
            v == ClockVerdict::OneWarhead <==> (disarmed > 0 && self.armed - disarmed == 1),
            0 < disarmed && self.armed - disarmed > 1 ==> v == ClockVerdict::Warheads((self.armed - disarmed) as usize),
    {
        let remaining = self.armed - disarmed;
        if disarmed == 0 || remaining == 0 {
            ClockVerdict::Midnight
        } else if remaining == 1 {
            ClockVerdict::OneWarhead
        } else {
            ClockVerdict::Warheads(remaining)
        }
    }
}

/// Where a warhead is in its life.
#[derive(PartialEq, Eq, Structural, Clone, Copy, Debug)]
pub enum WarheadState {
    /// Not polled yet.
    Proliferating,
    /// Armed on the clock of the thread with this core id.
    DoomsdayClock { core_id: usize },
}

/// A task that arms a clock when first polled and never completes.
#[derive(Clone, Copy, Debug)]
pub struct NuclearWarhead {
    pub state: WarheadState,
}

/// What the task does after a poll (it is always pending).
#[derive(PartialEq, Eq, Structural, Clone, Copy, Debug)]
pub enum PollAction {
    /// Ask to be polled again.
    WakeAndPend,
    /// It is polled on another thread than the one it armed: count one armament.
    CountArmament,
}

/// What dropping a warhead does.
#[derive(PartialEq, Eq, Structural, Clone, Copy, Debug)]
pub enum DropAction {
    /// The clocks were destroyed already: references would dangle.
    Panic,
    /// Disarm the clock of the thread with this core id.
    Disarm(usize),
    /// Nothing was armed.
    Nothing,
}

/// The warhead after a poll on a thread whose clock is `clock`.
pub open spec fn warhead_after_poll(w: NuclearWarhead, clock: DoomsdayClock) -> NuclearWarhead {
    match w.state {
        WarheadState::Proliferating => NuclearWarhead {
            state: WarheadState::DoomsdayClock { core_id: clock.core_id },
        },
        WarheadState::DoomsdayClock { .. } => w,
    }
}

/// The polling thread's clock after the poll: a warhead arms it on its first poll only.
pub open spec fn clock_after_poll(w: NuclearWarhead, clock: DoomsdayClock) -> DoomsdayClock {
    match w.state {
        WarheadState::Proliferating => DoomsdayClock { core_id: clock.core_id, armed: (clock.armed + 1) as usize },
        WarheadState::DoomsdayClock { .. } => clock,
    }
}

/// What the warhead does after a poll on a thread whose clock is `clock`.
pub open spec fn poll_action(w: NuclearWarhead, clock: DoomsdayClock) -> PollAction {
    match w.state {
        WarheadState::Proliferating => PollAction::WakeAndPend,
        WarheadState::DoomsdayClock { core_id } => if core_id == clock.core_id {
            PollAction::WakeAndPend
        } else {
            PollAction::CountArmament
        },
    }
}

/// What dropping the warhead does, given whether the clocks were destroyed already.
pub open spec fn drop_action(w: NuclearWarhead, clocks_dropped: bool) -> DropAction {
    if clocks_dropped {
        DropAction::Panic
    } else {
        match w.state {
            WarheadState::Proliferating => DropAction::Nothing,
            WarheadState::DoomsdayClock { core_id } => DropAction::Disarm(core_id),
        }
    }
}

impl NuclearWarhead {
    /// A warhead that has not been polled.
    pub fn proliferate() -> (w: NuclearWarhead)
        ensures
            w.state == WarheadState::Proliferating,
    {
        NuclearWarhead { state: WarheadState::Proliferating }
    }

    /// Polls the warhead on the thread whose clock is `clock`.
    pub fn poll(&mut self, clock: &mut DoomsdayClock) -> (action: PollAction)
        requires
            old(self).state == WarheadState::Proliferating ==> old(clock).armed < usize::MAX,
        ensures
            *final(self) == warhead_after_poll(*old(self), *old(clock)),
            *final(clock) == clock_after_poll(*old(self), *old(clock)),
            action == poll_action(*old(self), *old(clock)),
            old(self).state == WarheadState::Proliferating ==> {
                &&& action == PollAction::WakeAndPend
                &&& final(self).state == (WarheadState::DoomsdayClock { core_id: old(clock).core_id })
                &&& final(clock).armed == old(clock).armed + 1
                &&& final(clock).core_id == old(clock).core_id
            },
            forall|c: usize| old(self).state == (WarheadState::DoomsdayClock { core_id: c }) ==> {
                &&& (action == PollAction::WakeAndPend <==> c == old(clock).core_id)
                &&& (action == PollAction::CountArmament <==> c != old(clock).core_id)
                &&& *final(self) == *old(self)
                &&& *final(clock) == *old(clock)
            },
    {
        match self.state {
            WarheadState::Proliferating => {
                clock.armed = clock.armed + 1;
                self.state = WarheadState::DoomsdayClock { core_id: clock.core_id };
                PollAction::WakeAndPend
            },
            WarheadState::DoomsdayClock { core_id } => {
                if core_id == clock.core_id {
                    PollAction::WakeAndPend
                } else {
                    PollAction::CountArmament
                }
            },
        }
    }

    /// Drops the warhead; `clocks_dropped` tells whether a clock was destroyed already.
    pub fn on_drop(&self, clocks_dropped: bool) -> (action: DropAction)
        ensures
            action == drop_action(*self, clocks_dropped),
            clocks_dropped ==> action == DropAction::Panic,
            !clocks_dropped && self.state == WarheadState::Proliferating ==> action == DropAction::Nothing,
            forall|c: usize| !clocks_dropped && self.state == (WarheadState::DoomsdayClock { core_id: c })
                ==> action == DropAction::Disarm(c),
    {
        if clocks_dropped {
            DropAction::Panic
        } else {
            match self.state {
                WarheadState::Proliferating => DropAction::Nothing,
                WarheadState::DoomsdayClock { core_id } => DropAction::Disarm(core_id),
            }
        }
    }
}

/// Whether the armament that found `armaments_before` counted completes the arsenal.
pub fn arsenal_armed(armaments_before: usize) -> (r: bool)
    requires
        armaments_before < usize::MAX,
    ensures
        r == (armaments_before + 1 == ARSENAL_SIZE),
{
    armaments_before + 1 == ARSENAL_SIZE
}

/// A warhead arms a clock on its first poll only: polling it again, on any
/// thread, changes neither the warhead nor that thread's clock.
pub proof fn lemma_arms_once(w: NuclearWarhead, first: DoomsdayClock, later: DoomsdayClock)
    ensures
        warhead_after_poll(warhead_after_poll(w, first), later) == warhead_after_poll(w, first),
        clock_after_poll(warhead_after_poll(w, first), later) == later,
{
}

/// A warhead first polled on the thread whose clock is `clock` arms that clock,
/// and when dropped before the clocks are destroyed it disarms that same clock.
pub proof fn lemma_disarms_the_clock_it_armed(clock: DoomsdayClock)
    requires
        clock.armed < usize::MAX,
    ensures
        clock_after_poll(NuclearWarhead { state: WarheadState::Proliferating }, clock).armed == clock.armed + 1,
        drop_action(warhead_after_poll(NuclearWarhead { state: WarheadState::Proliferating }, clock), false)
            == DropAction::Disarm(clock.core_id),
{
}

/// A warhead armed on the clock of the thread with core id `core_id`.
pub open spec fn armed_on(core_id: usize) -> NuclearWarhead {
    NuclearWarhead { state: WarheadState::DoomsdayClock { core_id } }
}

/// The accounting of one clock: of the warheads it armed, `disarmed` were
/// dropped and the others are among the `live` warheads.
pub open spec fn clock_balanced(clock: DoomsdayClock, disarmed: nat, live: Multiset<NuclearWarhead>) -> bool {
    clock.armed == disarmed + live.count(armed_on(clock.core_id))
}

/// A new clock, while no live warhead is armed on its core, is balanced.
pub proof fn lemma_new_clock_balanced(core_id: usize, live: Multiset<NuclearWarhead>)
    requires
        live.count(armed_on(core_id)) == 0,
    ensures
        clock_balanced(DoomsdayClock { core_id, armed: 0 }, 0, live),
{
}

/// Polling a live warhead `w` on the thread whose clock is `polled` keeps that
/// clock balanced, whether the poll arms it or not.
pub proof fn lemma_poll_keeps_polled_balance(
    w: NuclearWarhead,
    live: Multiset<NuclearWarhead>,
    polled: DoomsdayClock,
    disarmed: nat,
)
    requires
        live.count(w) > 0,
        w.state == WarheadState::Proliferating ==> polled.armed < usize::MAX,
        clock_balanced(polled, disarmed, live),
    ensures
        clock_balanced(clock_after_poll(w, polled), disarmed, live.remove(w).insert(warhead_after_poll(w, polled))),
{
    match w.state {
        WarheadState::Proliferating => {
            assert(w != armed_on(polled.core_id));
        },
        WarheadState::DoomsdayClock { .. } => {},
    }
}

/// Polling a live warhead on the thread whose clock is `polled` keeps the clock
/// of every other core balanced; that clock does not change.
pub proof fn lemma_poll_keeps_other_balance(
    w: NuclearWarhead,
    live: Multiset<NuclearWarhead>,
    polled: DoomsdayClock,
    other: DoomsdayClock,
    other_disarmed: nat,
)
    requires
        live.count(w) > 0,
        other.core_id != polled.core_id,
        clock_balanced(other, other_disarmed, live),
    ensures
        clock_balanced(other, other_disarmed, live.remove(w).insert(warhead_after_poll(w, polled))),
{
    assert(armed_on(polled.core_id) != armed_on(other.core_id));
    match w.state {
        WarheadState::Proliferating => {
            assert(w != armed_on(other.core_id));
        },
        WarheadState::DoomsdayClock { .. } => {},
    }
}

/// Dropping a live warhead before the clocks are destroyed keeps every clock
/// balanced: the clock it disarms counts one more drop, the others are as before.
pub proof fn lemma_drop_keeps_balance(
    w: NuclearWarhead,
    live: Multiset<NuclearWarhead>,
    clock: DoomsdayClock,
    disarmed: nat,
)
    requires
        live.count(w) > 0,
        clock_balanced(clock, disarmed, live),
    ensures
        clock_balanced(
            clock,
            if drop_action(w, false) == DropAction::Disarm(clock.core_id) {
                disarmed + 1
            } else {
                disarmed
            },
            live.remove(w),
        ),
{
    if drop_action(w, false) == DropAction::Disarm(clock.core_id) {
        assert(w == armed_on(clock.core_id));
    } else {
        assert(w != armed_on(clock.core_id));
    }
}

/// A balanced clock never counts more drops than warheads it armed, so its
/// verdict is always defined.
pub proof fn lemma_balanced_disarmed_at_most_armed(clock: DoomsdayClock, disarmed: nat, live: Multiset<NuclearWarhead>)
    requires
        clock_balanced(clock, disarmed, live),
    ensures
        disarmed <= clock.armed,
{
}

/// Something that happens to the warheads while the clocks are alive.
#[derive(Clone, Copy, Debug)]
pub enum ArsenalEvent {
    /// A new warhead is spawned.
    Spawn,
    /// A live warhead is polled on the thread with this core id.
    Poll(NuclearWarhead, usize),
    /// A live warhead is dropped.
    Drop(NuclearWarhead),
}

/// The state of all clocks and warheads: the clock of each core id, how many
/// of each clock's warheads were dropped, and the live warheads.
pub type ArsenalState = (Map<usize, DoomsdayClock>, Map<usize, nat>, Multiset<NuclearWarhead>);

/// Every clock is balanced and filed under its own core id, and every live
/// armed warhead is armed on a core that has a clock.
pub open spec fn arsenal_balanced(a: ArsenalState) -> bool {
    &&& forall|c: usize| #[trigger] a.0.contains_key(c) ==> {
        &&& a.1.contains_key(c)
        &&& a.0[c].core_id == c
        &&& clock_balanced(a.0[c], a.1[c], a.2)
    }
    &&& forall|w: NuclearWarhead| #[trigger] a.2.count(w) > 0 ==> match w.state {
        WarheadState::DoomsdayClock { core_id } => a.0.contains_key(core_id),
        WarheadState::Proliferating => true,
    }
}

/// Whether the event can happen in state `a`: only live warheads are polled or
/// dropped, polls happen on threads that have a clock, and a clock that arms a
/// warhead has not counted `usize::MAX` arms already.
pub open spec fn event_allowed(a: ArsenalState, e: ArsenalEvent) -> bool {
    match e {
        ArsenalEvent::Spawn => true,
        ArsenalEvent::Poll(w, c) => {
            &&& a.2.count(w) > 0
            &&& a.0.contains_key(c)
            &&& w.state == WarheadState::Proliferating ==> a.0[c].armed < usize::MAX
        },
        ArsenalEvent::Drop(w) => a.2.count(w) > 0,
    }
}

/// The state after the event, as `poll` and `on_drop` describe it.
pub open spec fn arsenal_after(a: ArsenalState, e: ArsenalEvent) -> ArsenalState {
    match e {
        ArsenalEvent::Spawn => (a.0, a.1, a.2.insert(NuclearWarhead { state: WarheadState::Proliferating })),
        ArsenalEvent::Poll(w, c) => (
            a.0.insert(c, clock_after_poll(w, a.0[c])),
            a.1,
            a.2.remove(w).insert(warhead_after_poll(w, a.0[c])),
        ),
        ArsenalEvent::Drop(w) => (
            a.0,
            match drop_action(w, false) {
                DropAction::Disarm(k) => a.1.insert(k, a.1[k] + 1),
                _ => a.1,
            },
            a.2.remove(w),
        ),
    }
}

/// Whether every event of `events` can happen in turn, starting from `a`.
pub open spec fn run_allowed(a: ArsenalState, events: Seq<ArsenalEvent>) -> bool
    decreases events.len(),
{
    if events.len() == 0 {
        true
    } else {
        event_allowed(a, events[0]) && run_allowed(arsenal_after(a, events[0]), events.drop_first())
    }
}

/// The state after the events of `events`, in turn.
pub open spec fn arsenal_after_run(a: ArsenalState, events: Seq<ArsenalEvent>) -> ArsenalState
    decreases events.len(),
{
    if events.len() == 0 {
        a
    } else {
        arsenal_after_run(arsenal_after(a, events[0]), events.drop_first())
    }
}

/// Clocks that have armed nothing, each under its own core id, with no drops
/// counted and no live warhead, are balanced.
pub proof fn lemma_fresh_arsenal_balanced(clocks: Map<usize, DoomsdayClock>, disarmed: Map<usize, nat>)
    requires
        forall|c: usize| #[trigger] clocks.contains_key(c) ==> {
            &&& clocks[c] == DoomsdayClock { core_id: c, armed: 0 }
            &&& disarmed.contains_key(c)
            &&& disarmed[c] == 0
        },
    ensures
        arsenal_balanced((clocks, disarmed, Multiset::empty())),
{
}

/// One allowed event keeps every clock balanced.
pub proof fn lemma_event_keeps_arsenal_balanced(a: ArsenalState, e: ArsenalEvent)
    requires
        arsenal_balanced(a),
        event_allowed(a, e),
    ensures
        arsenal_balanced(arsenal_after(a, e)),
{
    let b = arsenal_after(a, e);
    match e {
        ArsenalEvent::Spawn => {
            let p = NuclearWarhead { state: WarheadState::Proliferating };
            assert forall|c: usize| #[trigger] b.0.contains_key(c) implies {
                &&& b.1.contains_key(c)
                &&& b.0[c].core_id == c
                &&& clock_balanced(b.0[c], b.1[c], b.2)
            } by {
                assert(p != armed_on(c));
            }
            assert forall|w: NuclearWarhead| #[trigger] b.2.count(w) > 0 implies match w.state {
                WarheadState::DoomsdayClock { core_id } => b.0.contains_key(core_id),
                WarheadState::Proliferating => true,
            } by {
                if w != p {
                    assert(a.2.count(w) > 0);
                }
            }
        },
        ArsenalEvent::Poll(w, c) => {
            let polled = a.0[c];
            let after = warhead_after_poll(w, polled);
            assert forall|d: usize| #[trigger] b.0.contains_key(d) implies {
                &&& b.1.contains_key(d)
                &&& b.0[d].core_id == d
                &&& clock_balanced(b.0[d], b.1[d], b.2)
            } by {
                assert(a.0.contains_key(d));
                if d == c {
                    lemma_poll_keeps_polled_balance(w, a.2, polled, a.1[c]);
                } else {
                    lemma_poll_keeps_other_balance(w, a.2, polled, a.0[d], a.1[d]);
                }
            }
            assert forall|x: NuclearWarhead| #[trigger] b.2.count(x) > 0 implies match x.state {
                WarheadState::DoomsdayClock { core_id } => b.0.contains_key(core_id),
                WarheadState::Proliferating => true,
            } by {
                if x != after {
                    assert(a.2.count(x) > 0);
                    assert(a.0.contains_key(x.state->core_id) || x.state == WarheadState::Proliferating);
                }
            }
        },
        ArsenalEvent::Drop(w) => {
            assert forall|d: usize| #[trigger] b.0.contains_key(d) implies {
                &&& b.1.contains_key(d)
                &&& b.0[d].core_id == d
                &&& clock_balanced(b.0[d], b.1[d], b.2)
            } by {
                lemma_drop_keeps_balance(w, a.2, a.0[d], a.1[d]);
            }
            assert forall|x: NuclearWarhead| #[trigger] b.2.count(x) > 0 implies match x.state {
                WarheadState::DoomsdayClock { core_id } => b.0.contains_key(core_id),
                WarheadState::Proliferating => true,
            } by {
                assert(a.2.count(x) > 0);
            }
        },
    }
}

/// However the warheads are spawned, polled and dropped, as long as each event
/// is allowed, every clock stays balanced, so no clock ever counts more drops
/// than warheads it armed: the subtraction in its verdict never underflows.
pub proof fn lemma_run_keeps_arsenal_balanced(a: ArsenalState, events: Seq<ArsenalEvent>)
    requires
        arsenal_balanced(a),
        run_allowed(a, events),
    ensures
        arsenal_balanced(arsenal_after_run(a, events)),
        forall|c: usize| #[trigger] arsenal_after_run(a, events).0.contains_key(c)
            ==> arsenal_after_run(a, events).1[c] <= arsenal_after_run(a, events).0[c].armed,
    decreases events.len(),
{
    if events.len() > 0 {
        lemma_event_keeps_arsenal_balanced(a, events[0]);
        lemma_run_keeps_arsenal_balanced(arsenal_after(a, events[0]), events.drop_first());
    }
    let z = arsenal_after_run(a, events);
    assert forall|c: usize| #[trigger] z.0.contains_key(c) implies z.1[c] <= z.0[c].armed by {
        lemma_balanced_disarmed_at_most_armed(z.0[c], z.1[c], z.2);
    }
}

/// A clock reports midnight exactly when none of its warheads was dropped or
/// all of them were; when some but not all were dropped, it reports how many
/// are left: one, or their number.
pub proof fn lemma_verdict_counts_remaining(armed: usize, disarmed: usize)
    requires
        disarmed <= armed,
    ensures
        clock_verdict(armed, disarmed) == ClockVerdict::Midnight <==> (disarmed == 0 || disarmed == armed),
        0 < disarmed < armed ==> clock_verdict(armed, disarmed) == (if armed - disarmed == 1 {
            ClockVerdict::OneWarhead
        } else {
            ClockVerdict::Warheads((armed - disarmed) as usize)
        }),
        forall|n: usize| clock_verdict(armed, disarmed) == ClockVerdict::Warheads(n)
            ==> n == armed - disarmed && n > 1 && disarmed > 0,
{
}

/// A warhead armed on core `c` asks to be polled again exactly when it is
/// polled on the thread of core `c`; on any other thread it counts an armament.
/// Either way, neither the warhead nor the polling thread's clock changes.
pub proof fn lemma_armed_poll_by_core(c: usize, clock: DoomsdayClock)
    ensures
        poll_action(armed_on(c), clock) == PollAction::WakeAndPend <==> c == clock.core_id,
        poll_action(armed_on(c), clock) == PollAction::CountArmament <==> c != clock.core_id,
        warhead_after_poll(armed_on(c), clock) == armed_on(c),
        clock_after_poll(armed_on(c), clock) == clock,
{
}

/// Polling a warhead that was never polled arms the polling thread's clock by
/// one, binds the warhead to that clock's core, and asks to be polled again.
pub proof fn lemma_first_poll_arms(clock: DoomsdayClock)
    requires
        clock.armed < usize::MAX,
    ensures
        poll_action(NuclearWarhead { state: WarheadState::Proliferating }, clock) == PollAction::WakeAndPend,
        warhead_after_poll(NuclearWarhead { state: WarheadState::Proliferating }, clock) == armed_on(clock.core_id),
        clock_after_poll(NuclearWarhead { state: WarheadState::Proliferating }, clock).armed == clock.armed + 1,
        clock_after_poll(NuclearWarhead { state: WarheadState::Proliferating }, clock).core_id == clock.core_id,
{
}

/// Once a clock was destroyed, dropping any warhead panics; before that, a
/// warhead disarms exactly the core it was armed on, and one never polled does
/// nothing.
pub proof fn lemma_drop_after_clocks_panics(w: NuclearWarhead, c: usize)
    ensures
        drop_action(w, true) == DropAction::Panic,
        drop_action(armed_on(c), false) == DropAction::Disarm(c),
        drop_action(NuclearWarhead { state: WarheadState::Proliferating }, false) == DropAction::Nothing,
        forall|k: usize| drop_action(w, false) == DropAction::Disarm(k) ==> w == armed_on(k),
{
}

/// A clock all of whose warheads were disarmed reports midnight.
pub proof fn lemma_all_disarmed_is_midnight(armed: usize)
    ensures
        clock_verdict(armed, armed) == ClockVerdict::Midnight,
{
}

} // verus!
