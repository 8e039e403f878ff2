//! The shutdown barrier: threads whose thread-local data may be referenced from
//! tasks register with the barrier, and during shutdown every registered thread
//! but the last one waits until the last one has arrived.
use vstd::prelude::*;

verus! {

/// The guard count after one more thread registers, as an atomic counter counts.
pub open spec fn count_after_enter(count: usize) -> usize {
    if count == usize::MAX { 0 } else { (count + 1) as usize }
}

/// The guard count after one registered thread arrives, as an atomic counter counts.
pub open spec fn count_after_leave(count: usize) -> usize {
    if count == 0 { usize::MAX } else { (count - 1) as usize }
}

/// What a thread that arrives at the barrier has to do next.
#[derive(PartialEq, Eq, Structural, Clone, Copy, Debug)]
pub enum StopAction {
    /// It was the last registered thread: mark shutdown as finalized and wake the others.
    Finalize,
    /// Block until shutdown has been finalized.
    Wait,
    /// Nothing: the thread does not take part in the rendezvous.
    Proceed,
}

/// The shared state of a shutdown barrier: how many registered threads have not
/// arrived yet, and whether the last of them has arrived.
#[derive(Clone, Copy, Debug)]
pub struct ShutdownBarrier {
    pub guard_count: usize,
    pub shutdown_finalized: bool,
}

/// The barrier after one more thread registered.
pub open spec fn barrier_after_enter(b: ShutdownBarrier) -> ShutdownBarrier {
    ShutdownBarrier { guard_count: count_after_enter(b.guard_count), shutdown_finalized: b.shutdown_finalized }
}

/// The barrier after one registered thread arrived: the thread that brings the
/// count from one to zero finalizes shutdown.
pub open spec fn barrier_after_leave(b: ShutdownBarrier) -> ShutdownBarrier {
    ShutdownBarrier {
        guard_count: count_after_leave(b.guard_count),
        shutdown_finalized: b.shutdown_finalized || b.guard_count == 1,
    }
}

/// What a registered thread does on arrival, given the count it found.
pub open spec fn arrival_action(count_before: usize) -> StopAction {
    if count_before == 1 { StopAction::Finalize } else { StopAction::Wait }
}

/// The barrier after `k` registered threads arrived one after the other.
pub open spec fn barrier_after_leaves(b: ShutdownBarrier, k: nat) -> ShutdownBarrier
    decreases k,
{
    if k == 0 {
        b
    } else {
        barrier_after_leave(barrier_after_leaves(b, (k - 1) as nat))
    }
}

/// The barrier after `k` threads registered one after the other.
pub open spec fn barrier_after_enters(b: ShutdownBarrier, k: nat) -> ShutdownBarrier
    decreases k,
{
    if k == 0 {
        b
    } else {
        barrier_after_enter(barrier_after_enters(b, (k - 1) as nat))
    }
}

/// When the `n` threads registered with a barrier that has not been finalized
/// arrive one after the other, each of the first `n - 1` waits, the `n`-th
/// finalizes, and shutdown is finalized exactly when all `n` have arrived: no
/// registered thread gets past the barrier before every one of them has reached it.
pub proof fn lemma_rendezvous_of_all(b: ShutdownBarrier, n: nat, k: nat)
    requires
        b.guard_count == n,
        !b.shutdown_finalized,
        k <= n,
    ensures
        barrier_after_leaves(b, k).guard_count == n - k,
        barrier_after_leaves(b, k).shutdown_finalized <==> (k == n && n > 0),
        k < n ==> arrival_action(barrier_after_leaves(b, k).guard_count) == (if k + 1 == n {
            StopAction::Finalize
        } else {
            StopAction::Wait
        }),
    decreases k,
{
    if k > 0 {
        lemma_rendezvous_of_all(b, n, (k - 1) as nat);
    }
}

/// Threads that register one after the other with a barrier each add one to
/// its count, as long as the count does not exceed `usize::MAX`, and do not
/// change whether shutdown has been finalized.
pub proof fn lemma_registrations_count(b: ShutdownBarrier, k: nat)
    requires
        b.guard_count + k <= usize::MAX,
    ensures
        barrier_after_enters(b, k).guard_count == b.guard_count + k,
        barrier_after_enters(b, k).shutdown_finalized == b.shutdown_finalized,
    decreases k,
{
    if k > 0 {
        lemma_registrations_count(b, (k - 1) as nat);
    }
}

/// A thread that registers and later arrives, with no other thread in between,
/// leaves the count as it found it; it finalizes shutdown exactly when it was
/// the only registered thread.
pub proof fn lemma_register_then_arrive(b: ShutdownBarrier)
    ensures
        barrier_after_leave(barrier_after_enter(b)).guard_count == b.guard_count,
        arrival_action(barrier_after_enter(b).guard_count) == StopAction::Finalize
            <==> b.guard_count == 0,
        barrier_after_leave(barrier_after_enter(b)).shutdown_finalized
            <==> (b.shutdown_finalized || b.guard_count == 0),
{
}

impl ShutdownBarrier {
    /// A barrier that no thread has registered with.
    pub fn new() -> (b: ShutdownBarrier)
        ensures
            b.guard_count == 0,
            !b.shutdown_finalized,
    {
        ShutdownBarrier { guard_count: 0, shutdown_finalized: false }
    }

    /// Registers one more thread; returns the count found before.
    pub fn enter(&mut self) -> (count_before: usize)
        ensures
            count_before == old(self).guard_count,
            *final(self) == barrier_after_enter(*old(self)),
    {
        let count_before = self.guard_count;
        self.guard_count = count_before.wrapping_add(1);
        count_before
    }

    /// One registered thread arrives; returns the count found before. The thread
    /// that finds a count of one finalizes shutdown.
    pub fn leave(&mut self) -> (count_before: usize)
        ensures
            count_before == old(self).guard_count,
            *final(self) == barrier_after_leave(*old(self)),
    {
        let count_before = self.guard_count;
        self.guard_count = count_before.wrapping_sub(1);
        if count_before == 1 {
            self.shutdown_finalized = true;
        }
        count_before
    }
}

impl Default for ShutdownBarrier {
    fn default() -> (b: ShutdownBarrier)
        ensures
            b.guard_count == 0,
            !b.shutdown_finalized,
    {
        ShutdownBarrier::new()
    }
}

/// A thread's membership in the barrier.
#[derive(Clone, Copy, Debug)]
pub struct ShutdownGuard {
    pub enabled: bool,
}

impl ShutdownGuard {
    /// A guard of a thread that has not registered.
    pub fn new() -> (g: ShutdownGuard)
        ensures
            !g.enabled,
    {
        ShutdownGuard { enabled: false }
    }

    /// Registers the thread with `barrier`, once: a thread that has registered
    /// already leaves the guard and the barrier as they are.
    pub fn guard_thread_shutdown(&mut self, barrier: &mut ShutdownBarrier)
        ensures
            final(self).enabled,
            old(self).enabled ==> *final(barrier) == *old(barrier),
            !old(self).enabled ==> *final(barrier) == barrier_after_enter(*old(barrier)),
    {
        if !self.enabled {
            self.enabled = true;
            barrier.enter();
        }
    }

    /// The thread arrives at the barrier as its thread-local data is being destroyed.
    /// A thread that never registered proceeds and leaves the barrier as it is; a
    /// registered thread arrives, and finalizes shutdown when it is the last one,
    /// else waits for that.
    pub fn rendezvous(&mut self, barrier: &mut ShutdownBarrier) -> (action: StopAction)
        ensures
            final(self).enabled == old(self).enabled,
            !old(self).enabled ==> action == StopAction::Proceed && *final(barrier) == *old(barrier),
            old(self).enabled ==> action == arrival_action(old(barrier).guard_count)
                && *final(barrier) == barrier_after_leave(*old(barrier)),
    {
        if self.enabled {
            self.enabled = true;
            let count_before = barrier.leave();
            if count_before == 1 {
                StopAction::Finalize
            } else {
                StopAction::Wait
            }
        } else {
            StopAction::Proceed
        }
    }
}

impl Default for ShutdownGuard {
    fn default() -> (g: ShutdownGuard)
        ensures
            !g.enabled,
    {
        ShutdownGuard::new()
    }
}

} // verus!
