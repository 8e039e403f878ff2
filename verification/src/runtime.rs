//! The configuration of a Tokio runtime whose worker threads rendezvous at a
//! shutdown barrier, and the decisions its thread hooks make.
use vstd::prelude::*;
use tokio::runtime::Builder as TokioBuilder;
use crate::barrier::{
    ShutdownBarrier, StopAction, barrier_after_enter, barrier_after_enters, barrier_after_leave,
    barrier_after_leaves, lemma_registrations_count, lemma_rendezvous_of_all,
};

verus! {

/// `tokio::runtime::Builder`, known to Verus as an opaque type.
#[verifier::external_type_specification]
#[verifier::external_body]
pub struct ExTokioRuntimeBuilder(TokioBuilder);

/// Whether the Tokio builder `b` selects the multi-thread scheduler (else it
/// selects the current-thread one).
pub uninterp spec fn tokio_selects_multi_thread(b: TokioBuilder) -> bool;

/// `tokio::runtime::Builder::new_current_thread`: a Tokio builder for the
/// current-thread scheduler. Beyond that choice the builder is opaque.
#[verifier::external_body]
fn tokio_current_thread_builder() -> (b: TokioBuilder)
    ensures
        !tokio_selects_multi_thread(b),
{
    TokioBuilder::new_current_thread()
}

/// `tokio::runtime::Builder::new_multi_thread`: a Tokio builder for the
/// multi-thread scheduler. Beyond that choice the builder is opaque.
#[verifier::external_body]
fn tokio_multi_thread_builder() -> (b: TokioBuilder)
    ensures
        tokio_selects_multi_thread(b),
{
    TokioBuilder::new_multi_thread()
}

/// The Tokio builder that `enable_all` makes of `b`: `b` with its time driver
/// switched on, and its I/O driver where Tokio's `net`, `process` or `signal`
/// feature is enabled; every other setting as it was.
pub uninterp spec fn builder_with_all_drivers(b: TokioBuilder) -> TokioBuilder;

/// `tokio::runtime::Builder::enable_all`: enables the drivers of the Tokio
/// builder (the time driver, and the I/O driver where the features that need it
/// are on). Its source sets those switches and nothing else, so the new builder
/// depends on the old one alone, and keeps its scheduler; it is named, not
/// described, as the builder is opaque.
#[verifier::external_body]
fn tokio_enable_all(b: &mut TokioBuilder)
    ensures
        *final(b) == builder_with_all_drivers(*old(b)),
        tokio_selects_multi_thread(*final(b)) == tokio_selects_multi_thread(*old(b)),
{
    b.enable_all();
}

/// The Tokio builder that `worker_threads(val)` makes of `b`: `b` with `val` as
/// its worker-thread count, every other setting as it was.
pub uninterp spec fn builder_with_worker_count(b: TokioBuilder, val: usize) -> TokioBuilder;

/// `tokio::runtime::Builder::worker_threads`: sets the number of worker threads
/// of the Tokio builder. Tokio panics on zero, which `requires` leaves out. Its
/// source stores the count and nothing else, so the new builder depends on the
/// old one and `val` alone, and keeps its scheduler; it is named, as the builder
/// is opaque.
#[verifier::external_body]
fn tokio_set_worker_threads(b: &mut TokioBuilder, val: usize)
    requires
        val > 0,
    ensures
        *final(b) == builder_with_worker_count(*old(b), val),
        tokio_selects_multi_thread(*final(b)) == tokio_selects_multi_thread(*old(b)),
{
    b.worker_threads(val);
}

/// `num_cpus::get`: the number of logical cores available, which its
/// documentation promises is at least one. It depends on the machine, so no
/// more is claimed.
#[verifier::external_body]
fn cpu_count() -> (n: usize)
    ensures
        n >= 1,
{
    num_cpus::get()
}

/// Whether `c` is one of the ASCII digits `0` to `9`.
pub open spec fn is_decimal_digit(c: char) -> bool {
    ('0' as int) <= (c as int) <= ('9' as int)
}

/// The number that a string of decimal digits denotes.
pub open spec fn decimal_value(digits: Seq<char>) -> nat
    decreases digits.len(),
{
    if digits.len() == 0 {
        0
    } else {
        decimal_value(digits.drop_last()) * 10 + ((digits.last() as int) - ('0' as int)) as nat
    }
}

/// The digits of an unsigned integer literal: the text after an optional leading `+`.
pub open spec fn unsigned_digits(s: Seq<char>) -> Seq<char> {
    if s.len() > 0 && s[0] == '+' {
        s.drop_first()
    } else {
        s
    }
}

/// What parsing `s` as a `usize` gives: an optional `+` followed by at least one
/// decimal digit and nothing else, denoting a value that fits in a `usize`.
pub open spec fn parsed_usize(s: Seq<char>) -> Option<usize> {
    let d = unsigned_digits(s);
    if d.len() > 0 && (forall|i: int| 0 <= i < d.len() ==> is_decimal_digit(#[trigger] d[i]))
        && decimal_value(d) <= usize::MAX {
        Some(decimal_value(d) as usize)
    } else {
        None
    }
}

/// `str::parse::<usize>`, with the error dropped: by the documentation of
/// `usize::from_str_radix`, the text must be an optional `+` followed by decimal
/// digits only, at least one, and the value must fit in a `usize`.
#[verifier::external_body]
fn parse_usize(s: &str) -> (r: Option<usize>)
    ensures
        r == parsed_usize(s@),
{
    s.parse::<usize>().ok()
}

/// The scheduler a [`Builder`] configures.
#[derive(PartialEq, Eq, Structural, Clone, Copy, Debug)]
pub enum Kind {
    CurrentThread,
    MultiThread,
}

/// The role of a thread with respect to the runtime's shutdown barrier.
#[derive(PartialEq, Eq, Structural, Clone, Copy, Debug)]
pub enum BarrierContext {
    /// The thread that owns the runtime and runs its entry point.
    Owner,
    /// A worker thread of the runtime, which waits at the barrier during shutdown.
    RuntimeWorker,
    /// A thread of the blocking pool, which does not wait at the barrier.
    PoolWorker,
}

/// What a [`Builder`] has been configured with, besides the Tokio builder it wraps.
#[derive(PartialEq, Eq, Structural, Clone, Copy, Debug)]
pub struct BuilderView {
    pub kind: Kind,
    pub worker_threads: usize,
}

/// The configuration after a request for `val` worker threads: it has an effect
/// on the multi-thread scheduler only.
pub open spec fn with_worker_threads(v: BuilderView, val: usize) -> BuilderView {
    if v.kind == Kind::CurrentThread {
        v
    } else {
        BuilderView { kind: v.kind, worker_threads: val }
    }
}

/// The text of an environment variable, if set.
pub open spec fn env_text(value: Option<&str>) -> Option<Seq<char>> {
    match value {
        Some(s) => Some(s@),
        None => None,
    }
}

/// The worker-thread count of the multi-thread scheduler, given the text of
/// `TOKIO_WORKER_THREADS` and the number of cores: the text's number when it
/// parses as one above zero, else the number of cores.
pub open spec fn initial_worker_threads(env_value: Option<Seq<char>>, cpus: usize) -> usize {
    match env_value {
        Some(t) => match parsed_usize(t) {
            Some(n) => if n > 0 { n } else { cpus },
            None => cpus,
        },
        None => cpus,
    }
}

/// A value that parses as a number above zero is the worker-thread count,
/// whatever the number of cores; the number of cores is used exactly when the
/// value is absent, does not parse, or parses as zero.
pub proof fn lemma_environment_count_wins(t: Seq<char>, cpus: usize)
    ensures
        forall|n: usize| parsed_usize(t) == Some(n) && n >= 1 ==> initial_worker_threads(Some(t), cpus) == n,
        parsed_usize(t) is None ==> initial_worker_threads(Some(t), cpus) == cpus,
        parsed_usize(t) == Some(0usize) ==> initial_worker_threads(Some(t), cpus) == cpus,
        initial_worker_threads(None, cpus) == cpus,
{
}

/// Builds Tokio runtimes configured with a shutdown barrier.
pub struct Builder {
    kind: Kind,
    worker_threads: usize,
    inner: TokioBuilder,
}

impl View for Builder {
    type V = BuilderView;

    closed spec fn view(&self) -> BuilderView {
        BuilderView { kind: self.kind, worker_threads: self.worker_threads }
    }
}

impl Builder {
    /// The Tokio builder this builder wraps.
    pub closed spec fn tokio_part(&self) -> TokioBuilder {
        self.inner
    }

    /// Returns a new builder with the current thread scheduler selected.
    pub fn new_current_thread() -> (b: Builder)
        ensures
            b@ == (BuilderView { kind: Kind::CurrentThread, worker_threads: 1 }),
            !tokio_selects_multi_thread(b.tokio_part()),
    {
        Builder { kind: Kind::CurrentThread, worker_threads: 1, inner: tokio_current_thread_builder() }
    }

    /// Returns a new builder with the multi thread scheduler selected and
    /// `worker_threads` as its worker-thread count, which must be above zero.
    pub fn new_multi_thread_with(worker_threads: usize) -> (b: Builder)
        requires
            worker_threads > 0,
        ensures
            b@ == (BuilderView { kind: Kind::MultiThread, worker_threads }),
            tokio_selects_multi_thread(b.tokio_part()),
    {
        Builder { kind: Kind::MultiThread, worker_threads, inner: tokio_multi_thread_builder() }
    }

    /// Returns a new builder with the multi thread scheduler selected, given the
    /// value of the environment variable `TOKIO_WORKER_THREADS`, if set, and the
    /// number of cores `cpus`: when the value parses as a number above zero, that
    /// is the worker-thread count; else the count is `cpus`.
    pub fn new_multi_thread_from(worker_threads_env: Option<&str>, cpus: usize) -> (b: Builder)
        requires
            cpus >= 1,
        ensures
            b@ == (BuilderView {
                kind: Kind::MultiThread,
                worker_threads: initial_worker_threads(env_text(worker_threads_env), cpus),
            }),
            tokio_selects_multi_thread(b.tokio_part()),
            forall|s: &str, n: usize| worker_threads_env == Some(s) && parsed_usize(s@) == Some(n) && n >= 1
                ==> b@.worker_threads == n,
            worker_threads_env is None ==> b@.worker_threads == cpus,
            forall|s: &str| worker_threads_env == Some(s) && (parsed_usize(s@) is None || parsed_usize(s@) == Some(0usize))
                ==> b@.worker_threads == cpus,
    {
        let parsed = match worker_threads_env {
            Some(s) => parse_usize(s),
            None => None,
        };
        match parsed {
            Some(n) if n > 0 => Builder::new_multi_thread_with(n),
            _ => Builder::new_multi_thread_with(cpus),
        }
    }

    /// Returns a new builder with the multi thread scheduler selected.
    /// `worker_threads_env` is the value of the environment variable
    /// `TOKIO_WORKER_THREADS`, if set: when it parses as a number above zero,
    /// that is the worker-thread count; else the count is the number of cores.
    pub fn new_multi_thread(worker_threads_env: Option<&str>) -> (b: Builder)
        ensures
            b@.kind == Kind::MultiThread,
            b@.worker_threads >= 1,
            tokio_selects_multi_thread(b.tokio_part()),
            exists|cpus: usize|
                cpus >= 1 && b@.worker_threads == #[trigger] initial_worker_threads(
                    env_text(worker_threads_env),
                    cpus,
                ),
            forall|s: &str, n: usize| worker_threads_env == Some(s) && parsed_usize(s@) == Some(n) && n >= 1
                ==> b@.worker_threads == n,
    {
        let cpus = cpu_count();
        let b = Builder::new_multi_thread_from(worker_threads_env, cpus);
        assert(b@.worker_threads == initial_worker_threads(env_text(worker_threads_env), cpus));
        b
    }

    /// Enables both I/O and time drivers.
    pub fn enable_all(&mut self) -> (r: &mut Self)
        ensures
            r@ == old(self)@,
            r.tokio_part() == builder_with_all_drivers(old(self).tokio_part()),
            tokio_selects_multi_thread(r.tokio_part()) == tokio_selects_multi_thread(old(self).tokio_part()),
            *final(self) == *final(r),
    {
        tokio_enable_all(&mut self.inner);
        self
    }

    /// Sets the number of worker threads the runtime will use; this overrides the
    /// count read from the environment. On the current thread scheduler it has no
    /// effect. Zero is refused.
    pub fn worker_threads(&mut self, val: usize) -> (r: &mut Self)
        requires
            val > 0,
        ensures
            r@ == with_worker_threads(old(self)@, val),
            old(self)@.kind == Kind::CurrentThread ==> r.tokio_part() == old(self).tokio_part(),
            old(self)@.kind == Kind::MultiThread ==> r.tokio_part() == builder_with_worker_count(
                old(self).tokio_part(),
                val,
            ),
            tokio_selects_multi_thread(r.tokio_part()) == tokio_selects_multi_thread(old(self).tokio_part()),
            *final(self) == *final(r),
    {
        match self.kind {
            Kind::CurrentThread => {},
            Kind::MultiThread => {
                self.worker_threads = val;
                tokio_set_worker_threads(&mut self.inner, val);
            },
        }
        self
    }

    /// The scheduler selected.
    pub fn kind(&self) -> (k: Kind)
        ensures
            k == self@.kind,
    {
        self.kind
    }

    /// The worker-thread count that the barrier hooks classify threads by.
    pub fn worker_thread_count(&self) -> (n: usize)
        ensures
            n == self@.worker_threads,
    {
        self.worker_threads
    }

    /// The Tokio builder, for installing the thread hooks and building.
    pub fn tokio_builder(&mut self) -> (r: &mut TokioBuilder)
        ensures
            *r == old(self).tokio_part(),
            final(self)@ == old(self)@,
            final(self).tokio_part() == *final(r),
    {
        &mut self.inner
    }
}

/// The role of a thread that starts when `count_before` threads are registered
/// with the barrier: the first `worker_threads` threads are the runtime's
/// workers, later ones belong to the blocking pool.
pub open spec fn started_thread_context(count_before: usize, worker_threads: usize) -> BarrierContext {
    if count_before >= worker_threads {
        BarrierContext::PoolWorker
    } else {
        BarrierContext::RuntimeWorker
    }
}

/// What a stopping thread does, given the count it found and its role: the last
/// thread finalizes shutdown, runtime workers wait for that, others proceed.
pub open spec fn stopping_thread_action(count_before: usize, context: Option<BarrierContext>) -> StopAction {
    if count_before == 1 {
        StopAction::Finalize
    } else if context == Some(BarrierContext::RuntimeWorker) {
        StopAction::Wait
    } else {
        StopAction::Proceed
    }
}

impl ShutdownBarrier {
    /// A thread of the runtime starts: it registers with the barrier and learns
    /// its role.
    pub fn on_thread_start(&mut self, worker_threads: usize) -> (context: BarrierContext)
        ensures
            *final(self) == barrier_after_enter(*old(self)),
            context == started_thread_context(old(self).guard_count, worker_threads),
    {
        let count_before = self.enter();
        if count_before >= worker_threads {
            BarrierContext::PoolWorker
        } else {
            BarrierContext::RuntimeWorker
        }
    }

    /// A thread of the runtime stops, in the role it started with.
    pub fn on_thread_stop(&mut self, context: Option<BarrierContext>) -> (action: StopAction)
        ensures
            *final(self) == barrier_after_leave(*old(self)),
            action == stopping_thread_action(old(self).guard_count, context),
    {
        let count_before = self.leave();
        if count_before == 1 {
            StopAction::Finalize
        } else {
            match context {
                Some(BarrierContext::RuntimeWorker) => StopAction::Wait,
                _ => StopAction::Proceed,
            }
        }
    }
}

/// Whether the runtime entry point has been registered exactly once, as `true`.
pub fn runtime_configured(runtimes: &[bool]) -> (r: bool)
    ensures
        r == (runtimes@ == seq![true]),
{
    let r = runtimes.len() == 1 && runtimes[0];
    proof {
        if runtimes@ == seq![true] {
            assert(runtimes@[0]);
        }
        if r {
            assert(runtimes@ =~= seq![true]);
        }
    }
    r
}

/// A request for worker threads overrides the count a multi-thread builder
/// started with, and leaves a current-thread builder as it is.
pub proof fn lemma_worker_threads_override(v: BuilderView, val: usize)
    ensures
        v.kind == Kind::MultiThread ==> with_worker_threads(v, val).worker_threads == val,
        v.kind == Kind::CurrentThread ==> with_worker_threads(v, val) == v,
        with_worker_threads(v, val).kind == v.kind,
{
}

/// A builder whose worker-thread count is above zero keeps a count above zero
/// under every request that `worker_threads` accepts: no builder made by the
/// constructors and changed only through `worker_threads` and `enable_all` ever
/// has zero worker threads.
pub proof fn lemma_worker_count_stays_positive(v: BuilderView, val: usize)
    requires
        v.worker_threads >= 1,
        val > 0,
    ensures
        with_worker_threads(v, val).worker_threads >= 1,
{
}

/// Threads that start one after the other at a barrier no thread has registered
/// with are classified by their position: the first `worker_threads` of them are
/// runtime workers, every later one is a blocking-pool thread.
pub proof fn lemma_start_order_classifies(b: ShutdownBarrier, worker_threads: usize, k: nat)
    requires
        b.guard_count == 0,
        k < usize::MAX,
    ensures
        started_thread_context(barrier_after_enters(b, k).guard_count, worker_threads)
            == (if k < worker_threads { BarrierContext::RuntimeWorker } else { BarrierContext::PoolWorker }),
{
    lemma_registrations_count(b, k);
}

/// When the `n` threads registered with a runtime's barrier stop one after the
/// other, the `k`-th of them (from zero) finalizes shutdown exactly when it is
/// the last; before that, a runtime worker waits and any other thread proceeds.
/// Shutdown is finalized once, after all of them stopped.
pub proof fn lemma_runtime_shutdown_order(b: ShutdownBarrier, n: nat, k: nat, context: Option<BarrierContext>)
    requires
        b.guard_count == n,
        !b.shutdown_finalized,
        k < n,
    ensures
        stopping_thread_action(barrier_after_leaves(b, k).guard_count, context) == (if k + 1 == n {
            StopAction::Finalize
        } else if context == Some(BarrierContext::RuntimeWorker) {
            StopAction::Wait
        } else {
            StopAction::Proceed
        }),
        !barrier_after_leaves(b, k).shutdown_finalized,
        barrier_after_leaves(b, n).shutdown_finalized,
{
    lemma_rendezvous_of_all(b, n, k);
    lemma_rendezvous_of_all(b, n, n);
}

} // verus!
