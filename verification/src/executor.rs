//! Cooperative single-threaded scheduler state and policy.
//!
//! The executor keeps two queues of runnables: a thread-local FIFO (the fast
//! path, touched only from the executor's bound thread) and a shared injector
//! for runnables scheduled from foreign threads.  `next_runnable` implements
//! the starvation-avoidance policy: every 50th dequeue, and whenever the
//! local queue is empty, the injector is consulted first and drained into the
//! local queue in a batch.  A `Pacer` bounds how many runnables execute
//! before the run loop yields to the driver, so ready I/O is reaped even
//! under a heavy task arrival rate.
//!
//! Runnables and wakers are carried as plain `u64` tokens; the embedding
//! runtime keeps the mapping from token to task and performs the actual
//! wake-ups and polls that the contracts here command.

use vstd::prelude::*;

use crate::injector::injector_new;
use crate::injector::injector_pop;
use crate::injector::injector_push;

verus! {

/// How many dequeues may pass between two forced checks of the injector.
pub const GLOBAL_CHECK_INTERVAL: u64 = 50;

/// How many runnables may execute before the run loop must yield.
pub const YIELD_INTERVAL: u64 = 100;

/// Allocator of executor thread identities.  The embedding runtime holds one
/// behind its process-wide counter; every executor draws a distinct identity
/// from it while the counter has not wrapped.
pub struct IdSource {
    next: u64,
}

impl IdSource {
    /// The identity the next call to `create` hands out.
    pub closed spec fn next_id(self) -> u64 {
        self.next
    }

    /// A fresh allocator.
    pub fn new() -> (s: IdSource)
        ensures
            s.next_id() == 0,
    {
        IdSource { next: 0 }
    }
}

/// Draw the next executor thread identity: the current counter value, after
/// which the counter moves on, so two draws never collide before the counter
/// wraps around.
pub fn create(ids: &mut IdSource) -> (id: u64)
    ensures
        id == old(ids).next_id(),
        final(ids).next_id() == tick_after(old(ids).next_id(), 1),
{
    let id = ids.next;
    ids.next = ids.next.wrapping_add(1);
    id
}

/// The executor identity installed on the calling thread, if any: the token
/// `spawn` and the scheduling function route by.
pub struct ExecContext {
    /// Identity of the executor installed on this thread, while one is.
    pub installed: Option<u64>,
}

/// Read the installed executor identity, exactly as the scheduling function
/// sees it.
pub fn current(ctx: &ExecContext) -> (r: Option<u64>)
    ensures
        r == ctx.installed,
{
    match &ctx.installed {
        Some(id) => Some(*id),
        None => None,
    }
}

/// Where the scheduling function put a runnable.
#[derive(PartialEq, Eq, Structural)]
pub enum Route {
    /// Onto the local FIFO: the caller runs on the executor's own thread.
    Local,
    /// Onto the shared injector: the caller runs on a foreign thread.
    Global,
}

/// Everything one scheduling call did, for the embedding runtime to act on.
pub struct ScheduleEffect {
    /// Which queue took the runnable.
    pub route: Route,
    /// The runnable back again if the injector rejected it; never rejected
    /// while the injector is open, which this module never revokes.
    pub rejected: Option<u64>,
    /// The sleep waker to invoke, when the run loop was parked.
    pub wake: Option<u64>,
}

/// One dequeue by the run loop.
pub struct Dequeue {
    /// The runnable to execute, or nothing when both queues were empty.
    pub runnable: Option<u64>,
    /// Whether this dequeue consulted the shared injector.
    pub checked_global: bool,
    /// Whether the runnable came from the injector rather than the local
    /// queue.
    pub from_global: bool,
}

/// The value of a `u64` counter `k` increments after `t0`, wrapping once at
/// the top of the range.
pub open spec fn tick_after(t0: u64, k: int) -> u64
    recommends
        0 <= k <= u64::MAX,
{
    if t0 + k > u64::MAX {
        (t0 + k - 0x1_0000_0000_0000_0000) as u64
    } else {
        (t0 + k) as u64
    }
}

/// Scheduler state for one executor: its bound thread identity, the dequeue
/// counter, the thread-local FIFO, the shared injector, and the run loop's
/// registered sleep waker.
pub struct Scheduler {
    thread_id: u64,
    ticks: u64,
    local: std::collections::VecDeque<u64>,
    global: concurrent_queue::ConcurrentQueue<u64>,
    sleeper: Option<u64>,
}

impl Scheduler {
    /// The thread identity this executor is bound to.
    pub closed spec fn thread_id(self) -> u64 {
        self.thread_id
    }

    /// How many dequeues have succeeded, wrapping at the top of `u64`.
    pub closed spec fn ticks(self) -> u64 {
        self.ticks
    }

    /// The runnables in the thread-local FIFO, front first.
    pub closed spec fn local_queue(self) -> Seq<u64> {
        self.local@
    }

    /// The waker token the run loop parked itself with, if it is parked.
    pub closed spec fn sleeper(self) -> Option<u64> {
        self.sleeper
    }

    /// A fresh scheduler bound to thread identity `thread_id`.
    pub fn new(thread_id: u64) -> (s: Scheduler)
        ensures
            s.thread_id() == thread_id,
            s.ticks() == 0,
            s.local_queue() == Seq::<u64>::empty(),
            s.sleeper() is None,
    {
        Scheduler {
            thread_id,
            ticks: 0,
            local: std::collections::VecDeque::new(),
            global: injector_new(),
            sleeper: None,
        }
    }

    /// Take the parked sleep waker, if any, so the caller can invoke it.
    pub fn wake(&mut self) -> (w: Option<u64>)
        ensures
            w == old(self).sleeper(),
            final(self).sleeper() is None,
            final(self).thread_id() == old(self).thread_id(),
            final(self).ticks() == old(self).ticks(),
            final(self).local_queue() == old(self).local_queue(),
    {
        self.sleeper.take()
    }

    /// Park the run loop: register the waker to invoke when new work arrives.
    pub fn sleep(&mut self, waker: u64)
        ensures
            final(self).sleeper() == Some(waker),
            final(self).thread_id() == old(self).thread_id(),
            final(self).ticks() == old(self).ticks(),
            final(self).local_queue() == old(self).local_queue(),
    {
        self.sleeper = Some(waker);
    }

    /// Push a runnable onto the thread-local FIFO and unpark the run loop.
    /// Only the executor's bound thread may do this.
    pub fn push_local(&mut self, runnable: u64) -> (wake: Option<u64>)
        ensures
            final(self).local_queue() == old(self).local_queue().push(runnable),
            wake == old(self).sleeper(),
            final(self).sleeper() is None,
            final(self).thread_id() == old(self).thread_id(),
            final(self).ticks() == old(self).ticks(),
    {
        self.local.push_back(runnable);
        self.wake()
    }

    /// Push a runnable onto the shared injector and unpark the run loop; the
    /// path taken when a waker fires on a foreign thread.
    pub fn push_global(&mut self, runnable: u64) -> (eff: (Option<u64>, Option<u64>))
        ensures
            eff.0 is Some ==> eff.0 == Some(runnable),
            eff.1 == old(self).sleeper(),
            final(self).sleeper() is None,
            final(self).local_queue() == old(self).local_queue(),
            final(self).thread_id() == old(self).thread_id(),
            final(self).ticks() == old(self).ticks(),
    {
        let rejected = injector_push(&self.global, runnable);
        let wake = self.wake();
        (rejected, wake)
    }

    /// The scheduling function a task's waker invokes: a runnable scheduled
    /// from the executor's own thread goes onto the local FIFO, one scheduled
    /// from any other thread goes onto the shared injector; either way the
    /// run loop is unparked.
    pub fn schedule(&mut self, runnable: u64, caller: Option<u64>) -> (eff: ScheduleEffect)
        ensures
            (eff.route == Route::Local) <==> caller == Some(old(self).thread_id()),
            eff.route == Route::Local ==> final(self).local_queue() == old(
                self,
            ).local_queue().push(runnable) && eff.rejected is None,
            eff.route == Route::Global ==> final(self).local_queue() == old(self).local_queue()
                && (eff.rejected is Some ==> eff.rejected == Some(runnable)),
            eff.wake == old(self).sleeper(),
            final(self).sleeper() is None,
            final(self).thread_id() == old(self).thread_id(),
            final(self).ticks() == old(self).ticks(),
    {
        let on_own_thread = match caller {
            Some(id) => id == self.thread_id,
            None => false,
        };
        if on_own_thread {
            let wake = self.push_local(runnable);
            ScheduleEffect { route: Route::Local, rejected: None, wake }
        } else {
            let (rejected, wake) = self.push_global(runnable);
            ScheduleEffect { route: Route::Global, rejected, wake }
        }
    }

    /// Select the next runnable under the starvation-avoidance policy.
    ///
    /// The injector is consulted exactly on every `GLOBAL_CHECK_INTERVAL`-th
    /// dequeue and whenever the local FIFO is empty; when it yields a
    /// runnable, up to `drain_limit` more of the injector's backlog is
    /// drained behind the local FIFO in one batch, so a foreign-thread flood
    /// cannot wedge the loop inside a single dequeue.  Otherwise the front of
    /// the local FIFO runs.  A successful dequeue advances the tick counter;
    /// an empty answer means the caller must park with `sleep`.
    pub fn next_runnable(&mut self, drain_limit: usize) -> (r: Dequeue)
        ensures
            final(self).thread_id() == old(self).thread_id(),
            final(self).sleeper() == old(self).sleeper(),
            r.checked_global == (old(self).ticks() % GLOBAL_CHECK_INTERVAL == 0 || old(
                self,
            ).local_queue().len() == 0),
            !r.checked_global ==> !r.from_global,
            !r.from_global && old(self).local_queue().len() > 0 ==> r.runnable == Some(
                old(self).local_queue()[0],
            ) && final(self).local_queue() == old(self).local_queue().drop_first(),
            !r.from_global && old(self).local_queue().len() == 0 ==> r.runnable is None && final(self).local_queue() == old(self).local_queue(),
            r.from_global ==> r.runnable is Some && r.checked_global && old(
                self,
            ).local_queue().is_prefix_of(final(self).local_queue()),
            r.runnable is Some ==> final(self).ticks() == tick_after(old(self).ticks(), 1),
            r.runnable is None ==> final(self).ticks() == old(self).ticks(),
    {
        let check = self.ticks % GLOBAL_CHECK_INTERVAL == 0 || self.local.len() == 0;
        if check {
            match injector_pop(&self.global) {
                Some(first) => {
                    let ghost pre = *self;
                    let mut fuel: usize = drain_limit;
                    loop
                        invariant
                            pre.local_queue().is_prefix_of(self.local@),
                            self.thread_id == pre.thread_id,
                            self.ticks == pre.ticks,
                            self.sleeper == pre.sleeper,
                            self.global == pre.global,
                        decreases fuel,
                    {
                        if fuel == 0 {
                            break ;
                        }
                        fuel = fuel - 1;
                        match injector_pop(&self.global) {
                            Some(extra) => {
                                self.local.push_back(extra);
                                proof {
                                    assert(pre.local_queue().is_prefix_of(self.local@));
                                }
                            },
                            None => {
                                break ;
                            },
                        }
                    }
                    self.ticks = self.ticks.wrapping_add(1);
                    Dequeue { runnable: Some(first), checked_global: true, from_global: true }
                },
                None => {
                    let popped = self.local.pop_front();
                    if popped.is_some() {
                        self.ticks = self.ticks.wrapping_add(1);
                    }
                    Dequeue { runnable: popped, checked_global: true, from_global: false }
                },
            }
        } else {
            let popped = self.local.pop_front();
            if popped.is_some() {
                self.ticks = self.ticks.wrapping_add(1);
            }
            Dequeue { runnable: popped, checked_global: false, from_global: false }
        }
    }
}

/// Counter of runnables executed since the run loop last yielded to the
/// driver.
pub struct Pacer {
    runs: u64,
}

/// What one more executed runnable does to the pacer: the count advances,
/// and on reaching `YIELD_INTERVAL` it resets and commands a yield.
pub open spec fn pace_next(runs: int) -> (int, bool) {
    if runs + 1 == YIELD_INTERVAL {
        (0, true)
    } else {
        (runs + 1, false)
    }
}

impl Pacer {
    /// Runnables executed since the last yield.
    pub closed spec fn runs(self) -> int {
        self.runs as int
    }

    /// The pacer never counts past the yield threshold.
    pub open spec fn wf(self) -> bool {
        0 <= self.runs() < YIELD_INTERVAL
    }

    /// A fresh pacer, at the start of a batch.
    pub fn new() -> (p: Pacer)
        ensures
            p.wf(),
            p.runs() == 0,
    {
        Pacer { runs: 0 }
    }

    /// Record one executed runnable; true commands the run loop to yield to
    /// the driver now, which happens exactly at every `YIELD_INTERVAL`-th
    /// runnable.
    pub fn note_run(&mut self) -> (yield_now: bool)
        requires
            old(self).wf(),
        ensures
            final(self).wf(),
            (final(self).runs(), yield_now) == pace_next(old(self).runs()),
            yield_now == (old(self).runs() + 1 == YIELD_INTERVAL),
    {
        self.runs = self.runs + 1;
        if self.runs == YIELD_INTERVAL {
            self.runs = 0;
            true
        } else {
            false
        }
    }
}

/// Dequeues until the pacer commands a yield, starting from `runs` executed
/// runnables.
pub open spec fn runs_until_yield(runs: int) -> nat
    recommends
        0 <= runs < YIELD_INTERVAL,
    decreases YIELD_INTERVAL - runs,
    when 0 <= runs < YIELD_INTERVAL
{
    if pace_next(runs).1 {
        1
    } else {
        1 + runs_until_yield(pace_next(runs).0)
    }
}

/// Between two yields at most `YIELD_INTERVAL` runnables execute: from any
/// reachable pacer state, a yield is commanded after exactly
/// `YIELD_INTERVAL - runs` further runnables.
pub proof fn lemma_yield_within_interval(runs: int)
    requires
        0 <= runs < YIELD_INTERVAL,
    ensures
        runs_until_yield(runs) == YIELD_INTERVAL - runs,
        runs_until_yield(runs) <= YIELD_INTERVAL,
    decreases YIELD_INTERVAL - runs,
{
    if !pace_next(runs).1 {
        lemma_yield_within_interval(runs + 1);
    }
}

/// Among any `GLOBAL_CHECK_INTERVAL` consecutive values of the dequeue
/// counter there is one that forces an injector check: `next_runnable`
/// consults the injector whenever the counter is a multiple of the interval,
/// and the counter takes the values `tick_after(t0, k)` across consecutive
/// successful dequeues.
pub proof fn lemma_global_check_within_interval(t0: u64)
    ensures
        exists|k: int|
            0 <= k < GLOBAL_CHECK_INTERVAL && #[trigger] (tick_after(t0, k) as int)
                % (GLOBAL_CHECK_INTERVAL as int) == 0,
{
    let n = GLOBAL_CHECK_INTERVAL as int;
    let r = t0 % GLOBAL_CHECK_INTERVAL;
    if r == 0 {
        assert(tick_after(t0, 0) == t0);
        assert((tick_after(t0, 0) as int) % n == 0);
    } else if t0 + (n - r) <= u64::MAX {
        let k = n - r;
        assert(tick_after(t0, k) == t0 + k);
        assert((tick_after(t0, k) as int) % n == 0) by {
            let q = t0 as int / n;
            vstd::arithmetic::div_mod::lemma_fundamental_div_mod(t0 as int, n);
            assert(t0 + k == n * (q + 1));
            vstd::arithmetic::div_mod::lemma_mod_multiples_basic(q + 1, n);
        }
    } else {
        let k = 0x1_0000_0000_0000_0000 - t0;
        assert(0 <= k < n);
        assert(tick_after(t0, k) == 0);
        assert((tick_after(t0, k) as int) % n == 0);
    }
}

/// One more successful dequeue moves the counter from `tick_after(t0, k)` to
/// `tick_after(t0, k + 1)`: the counter really does walk through consecutive
/// `tick_after` values.
pub proof fn lemma_tick_after_step(t0: u64, k: int)
    requires
        0 <= k < u64::MAX,
    ensures
        tick_after(tick_after(t0, k), 1) == tick_after(t0, k + 1),
{
}

} // verus!
