//! Driver state: the slot table of in-flight operations plus the staged
//! submission entries, and the operation handle that callers await.
//!
//! The driver owns a `Slab` of `Lifecycle` slots keyed by the index that is
//! stamped into each submission entry's `user_data` field, and a bounded
//! staging queue modelling the submission ring.  The embedding runtime moves
//! staged entries to the kernel (`take_sq`) and feeds completion events back
//! in (`dispatch`); everything in between — which slot a completion belongs
//! to, what state it moves to, who must be woken, when a payload may be
//! freed — is decided here.

use vstd::prelude::*;

use crate::lifecycle::CompleteAction;
use crate::lifecycle::Lifecycle;
use crate::lifecycle::decode_result;
use crate::lifecycle::decoded;
use crate::slab::Slab;
use crate::uring::entry_user_data;
use crate::uring::with_user_data;

verus! {

/// Driver-owned state for one ring: the lifecycle slots and the staged
/// submission entries, bounded by the ring capacity.
pub struct DriverState<P> {
    ops: Slab<Lifecycle<P>>,
    sq: Vec<io_uring::squeue::Entry>,
    sq_cap: usize,
}

/// Handle owned by the task that submitted one operation.  While the handle
/// is live and its `index` valid, the driver holds a slot at that index.
pub struct Op<P> {
    /// Index of the operation's lifecycle slot; the sentinel `usize::MAX`
    /// after the completion has been taken.
    pub index: usize,
    /// The operation's payload while the handle still owns it.
    pub data: Option<P>,
}

/// Completion record handed to the awaiting caller: the payload moves back
/// out of the handle together with the kernel's result and flags.
pub struct Completion<P> {
    pub data: P,
    pub result: Result<u32, u32>,
    pub flags: u32,
}

/// Outcome of polling an operation handle.
pub enum OpPoll<P> {
    /// Not completed yet; the caller's waker is now registered.
    Pending,
    /// Completed: the slot is gone and the handle is spent.
    Ready(Completion<P>),
}

/// Outcome of staging one submission.
pub enum SubmitOutcome<P> {
    /// The operation got a slot and its tagged entry is staged.
    Queued(Op<P>),
    /// The staging queue is at ring capacity; payload and entry come back
    /// unchanged, and the caller must flush the ring and retry.
    RingFull(P, io_uring::squeue::Entry),
}

/// What one completion event came to.
pub enum Reaped<P> {
    /// Result stored; nobody was waiting yet.
    Stored,
    /// Result stored; wake the task behind this waker token.
    Wake(u64),
    /// The slot was abandoned: it is removed, and this payload may now be
    /// freed — the kernel holds no more pointers into it.
    Release(P),
    /// The event names no live, uncompleted slot: the accounting is corrupt
    /// and the embedding runtime must abort.
    Corrupt,
}

/// One completion event, as read from the completion ring: the correlation
/// token, the raw kernel result, and the auxiliary flags.
#[derive(Clone, Copy)]
pub struct CqEvent {
    pub user_data: u64,
    pub result: i32,
    pub flags: u32,
}

impl<P> DriverState<P> {
    /// What `dispatch` comes to for one event, read off the current state.
    pub open spec fn reap_of(self, e: CqEvent) -> Reaped<P> {
        let i = e.user_data as int;
        if e.user_data > usize::MAX as u64 || !self.live(i) || self.slot(i) is Completed {
            Reaped::Corrupt
        } else if self.slot(i) is Submitted {
            Reaped::Stored
        } else if self.slot(i) is Waiting {
            Reaped::Wake(self.slot(i)->Waiting_0)
        } else {
            Reaped::Release(self.slot(i)->Ignored_0)
        }
    }

    /// No two events name the same slot; what the kernel guarantees by
    /// answering each submitted operation exactly once.
    pub open spec fn distinct_events(events: Seq<CqEvent>) -> bool {
        forall|k1: int, k2: int|
            0 <= k1 < k2 < events.len() ==> (#[trigger] events[k1]).user_data != (
            #[trigger] events[k2]).user_data
    }

    /// Slot accounting and staging queue within ring bounds.
    pub closed spec fn wf(self) -> bool {
        &&& self.ops.wf()
        &&& self.sq@.len() <= self.sq_cap
        &&& self.sq_cap >= 1
    }

    /// True when a lifecycle slot exists at index `i`.
    pub closed spec fn live(self, i: int) -> bool {
        self.ops.live(i)
    }

    /// The lifecycle slot at live index `i`.
    pub closed spec fn slot(self, i: int) -> Lifecycle<P>
        recommends
            self.live(i),
    {
        self.ops.slot(i)
    }

    /// The staged entries, oldest first.
    pub closed spec fn sq_entries(self) -> Seq<io_uring::squeue::Entry> {
        self.sq@
    }

    /// The correlation tokens of the staged entries, oldest first.
    pub open spec fn sq_tags(self) -> Seq<u64> {
        self.sq_entries().map(|k: int, e: io_uring::squeue::Entry| entry_user_data(e))
    }

    /// Number of staged entries.
    pub closed spec fn sq_len(self) -> int {
        self.sq@.len() as int
    }

    /// Ring capacity: how many entries may be staged before a flush.
    pub closed spec fn capacity(self) -> int {
        self.sq_cap as int
    }

    /// A fresh driver for a ring of `sq_cap` submission entries.
    pub fn new(sq_cap: usize) -> (d: DriverState<P>)
        requires
            sq_cap >= 1,
        ensures
            d.wf(),
            forall|i: int| !d.live(i),
            d.sq_len() == 0,
            d.capacity() == sq_cap,
    {
        DriverState { ops: Slab::new(), sq: Vec::new(), sq_cap }
    }

    /// Whether the staging queue is at ring capacity, so that a flush must
    /// happen before the next submission.
    pub fn sq_is_full(&self) -> (b: bool)
        ensures
            b == (self.sq_len() == self.capacity()),
    {
        self.sq.len() == self.sq_cap
    }

    /// Hand every staged entry over for the kernel, oldest first.
    pub fn take_sq(&mut self) -> (entries: Vec<io_uring::squeue::Entry>)
        requires
            old(self).wf(),
        ensures
            final(self).wf(),
            entries@ == old(self).sq_entries(),
            final(self).sq_len() == 0,
            final(self).capacity() == old(self).capacity(),
            forall|j: int| (#[trigger] final(self).live(j)) <==> old(self).live(j),
            forall|j: int|
                old(self).live(j) ==> #[trigger] final(self).slot(j) == old(self).slot(j),
    {
        let mut entries: Vec<io_uring::squeue::Entry> = Vec::new();
        core::mem::swap(&mut entries, &mut self.sq);
        entries
    }

    /// Stage one submission: give the operation a slot, stamp the slot index
    /// into the entry's `user_data`, and queue the entry for the kernel.
    ///
    /// When the staging queue is at ring capacity the inputs come back in
    /// `RingFull` and nothing changes: the caller flushes the ring and tries
    /// again, so a full ring is transient, never fatal.
    pub fn submit_with(&mut self, data: P, entry: io_uring::squeue::Entry) -> (r: SubmitOutcome<P>)
        requires
            old(self).wf(),
        ensures
            final(self).wf(),
            final(self).capacity() == old(self).capacity(),
            old(self).sq_len() == old(self).capacity() ==> (r matches SubmitOutcome::RingFull(d, e)
                && d == data && e == entry) && *final(self) == *old(self),
            old(self).sq_len() < old(self).capacity() ==> (r matches SubmitOutcome::Queued(op)
                && !old(self).live(op.index as int) && final(self).live(op.index as int)
                && final(self).slot(op.index as int) is Submitted && op.data == Some(data)
                && final(self).sq_tags() == old(self).sq_tags().push(op.index as u64)
                && final(self).sq_len() == old(self).sq_len() + 1 && (forall|j: int|
                j != op.index as int ==> (#[trigger] final(self).live(j) <==> old(self).live(j)))
                && (forall|j: int|
                j != op.index as int && old(self).live(j) ==> #[trigger] final(self).slot(j) == old(
                    self,
                ).slot(j))),
    {
        if self.sq.len() == self.sq_cap {
            return SubmitOutcome::RingFull(data, entry);
        }
        let op = Op::new(data, self);
        let ghost mid = *self;
        let tagged = with_user_data(entry, op.index as u64);
        self.sq.push(tagged);
        proof {
            assert(self.sq_tags() =~= old(self).sq_tags().push(op.index as u64));
            assert forall|j: int| j != op.index as int implies (#[trigger] self.live(j) <==> old(
                self,
            ).live(j)) by {
                assert(self.live(j) <==> mid.live(j));
            }
            assert forall|j: int| j != op.index as int && old(self).live(j) implies #[trigger] self
                .slot(j) == old(self).slot(j) by {
                assert(self.slot(j) == mid.slot(j));
            }
        }
        SubmitOutcome::Queued(op)
    }

    /// Apply one completion event read from the completion ring.
    ///
    /// The event's `user_data` must name a live slot that has not completed
    /// before — the kernel answers every submitted operation exactly once —
    /// so `Corrupt` comes back exactly when it does not, and then nothing
    /// has changed and the embedding runtime must abort.
    pub fn dispatch(&mut self, user_data: u64, raw_result: i32, flags: u32) -> (r: Reaped<P>)
        requires
            old(self).wf(),
        ensures
            final(self).wf(),
            final(self).capacity() == old(self).capacity(),
            final(self).sq_tags() == old(self).sq_tags(),
            final(self).sq_len() == old(self).sq_len(),
            r is Corrupt <==> (user_data > usize::MAX as u64 || !old(self).live(
                user_data as int,
            ) || old(self).slot(user_data as int) is Completed),
            r is Corrupt ==> *final(self) == *old(self),
            old(self).live(user_data as int) && old(self).slot(user_data as int) is Submitted
                ==> r is Stored && final(self).live(user_data as int) && final(self).slot(
                user_data as int,
            ) == Lifecycle::<P>::Completed(decoded(raw_result), flags),
            old(self).live(user_data as int) ==> (old(self).slot(user_data as int) matches
                Lifecycle::Waiting(w) ==> r == Reaped::<P>::Wake(w) && final(self).live(
                user_data as int,
            ) && final(self).slot(user_data as int) == Lifecycle::<P>::Completed(
                decoded(raw_result),
                flags,
            )),
            old(self).live(user_data as int) ==> (old(self).slot(user_data as int) matches
                Lifecycle::Ignored(p) ==> r == Reaped::<P>::Release(p) && !final(self).live(
                user_data as int,
            )),
            forall|j: int|
                j != user_data as int ==> (#[trigger] final(self).live(j) <==> old(self).live(j)),
            forall|j: int|
                j != user_data as int && old(self).live(j) ==> #[trigger] final(self).slot(j)
                    == old(self).slot(j),
    {
        proof {
            self.ops.lemma_live_bounded(user_data as int);
        }
        if user_data > usize::MAX as u64 {
            return Reaped::Corrupt;
        }
        let i = user_data as usize;
        if !self.ops.contains(i) {
            return Reaped::Corrupt;
        }
        let already_done = match self.ops.get(i) {
            Lifecycle::Completed(..) => true,
            _ => false,
        };
        if already_done {
            return Reaped::Corrupt;
        }
        let mut cur = self.ops.replace(i, Lifecycle::Submitted);
        let result = decode_result(raw_result);
        let act = cur.complete(result, flags);
        match act {
            CompleteAction::Stored => {
                self.ops.replace(i, cur);
                Reaped::Stored
            },
            CompleteAction::Wake(w) => {
                self.ops.replace(i, cur);
                Reaped::Wake(w)
            },
            CompleteAction::Release(p) => {
                self.ops.remove(i);
                Reaped::Release(p)
            },
        }
    }

    /// Drain one batch of completion events, in ring order.
    ///
    /// Every completion observed in one drain is applied before the executor
    /// resumes tasks, and the outcomes come back in event order, so wake-ups
    /// within a tick are delivered first-in first-out.  When the events name
    /// pairwise distinct slots, each outcome is exactly what `dispatch`
    /// states for the state at the start of the drain; slots no event names
    /// are untouched either way.
    pub fn tick(&mut self, events: &Vec<CqEvent>) -> (outcomes: Vec<Reaped<P>>)
        requires
            old(self).wf(),
        ensures
            final(self).wf(),
            final(self).capacity() == old(self).capacity(),
            final(self).sq_tags() == old(self).sq_tags(),
            final(self).sq_len() == old(self).sq_len(),
            outcomes@.len() == events@.len(),
            Self::distinct_events(events@) ==> forall|k: int|
                0 <= k < events@.len() ==> outcomes@[k] == old(self).reap_of(events@[k]),
            forall|j: int|
                (forall|m: int|
                    0 <= m < events@.len() ==> (#[trigger] events@[m]).user_data as int != j) ==> (
                (#[trigger] final(self).live(j)) <==> old(self).live(j)) && (old(self).live(j)
                    ==> final(self).slot(j) == old(self).slot(j)),
    {
        let ghost pre = *self;
        let mut outcomes: Vec<Reaped<P>> = Vec::new();
        let mut k: usize = 0;
        while k < events.len()
            invariant
                self.wf(),
                k <= events@.len(),
                outcomes@.len() == k as int,
                self.capacity() == pre.capacity(),
                self.sq_tags() == pre.sq_tags(),
                self.sq_len() == pre.sq_len(),
                Self::distinct_events(events@) ==> forall|m: int|
                    0 <= m < k as int ==> outcomes@[m] == pre.reap_of(events@[m]),
                Self::distinct_events(events@) ==> forall|m: int|
                    k as int <= m < events@.len() ==> ((#[trigger] self.live(
                        events@[m].user_data as int,
                    )) <==> pre.live(events@[m].user_data as int)) && (pre.live(
                        events@[m].user_data as int,
                    ) ==> self.slot(events@[m].user_data as int) == pre.slot(
                        events@[m].user_data as int,
                    )),
                forall|j: int|
                    (forall|m: int|
                        0 <= m < events@.len() ==> (#[trigger] events@[m]).user_data as int != j)
                        ==> ((#[trigger] self.live(j)) <==> pre.live(j)) && (pre.live(j)
                        ==> self.slot(j) == pre.slot(j)),
            decreases events@.len() - k,
        {
            let e = events[k];
            let ghost before = *self;
            let outcome = self.dispatch(e.user_data, e.result, e.flags);
            proof {
                if Self::distinct_events(events@) {
                    let i = e.user_data as int;
                    assert(events@[k as int] == e);
                    assert((before.live(events@[k as int].user_data as int) <==> pre.live(
                        events@[k as int].user_data as int,
                    )) && (pre.live(events@[k as int].user_data as int) ==> before.slot(
                        events@[k as int].user_data as int,
                    ) == pre.slot(events@[k as int].user_data as int)));
                    if e.user_data > usize::MAX as u64 || !pre.live(i) || pre.slot(i)
                        is Completed {
                        assert(outcome is Corrupt);
                    } else if pre.slot(i) is Submitted {
                        assert(outcome is Stored);
                    } else if pre.slot(i) is Waiting {
                        assert(outcome == Reaped::<P>::Wake(pre.slot(i)->Waiting_0));
                    } else {
                        assert(outcome == Reaped::<P>::Release(pre.slot(i)->Ignored_0));
                    }
                    assert(outcome == pre.reap_of(e));
                }
            }
            outcomes.push(outcome);
            k = k + 1;
        }
        outcomes
    }
}

impl<P> Op<P> {
    /// Create the lifecycle slot for a new operation and the handle that owns
    /// its payload.  The slot index was not live before this call: an index
    /// still embedded in an in-flight entry is never handed out again.
    pub fn new(data: P, driver: &mut DriverState<P>) -> (op: Op<P>)
        requires
            old(driver).wf(),
        ensures
            final(driver).wf(),
            !old(driver).live(op.index as int),
            final(driver).live(op.index as int),
            final(driver).slot(op.index as int) is Submitted,
            op.data == Some(data),
            final(driver).sq_tags() == old(driver).sq_tags(),
            final(driver).sq_len() == old(driver).sq_len(),
            final(driver).capacity() == old(driver).capacity(),
            forall|j: int|
                j != op.index as int ==> (#[trigger] final(driver).live(j) <==> old(driver).live(
                    j,
                )),
            forall|j: int|
                j != op.index as int && old(driver).live(j) ==> #[trigger] final(driver).slot(j)
                    == old(driver).slot(j),
    {
        let index = driver.ops.insert(Lifecycle::Submitted);
        Op { index, data: Some(data) }
    }

    /// A handle is valid while its payload is still owned and its slot is
    /// live and not abandoned: only dropping the handle abandons a slot.
    pub open spec fn valid(self, d: DriverState<P>) -> bool {
        &&& self.data is Some
        &&& d.live(self.index as int)
        &&& !(d.slot(self.index as int) is Ignored)
    }

    /// Poll the operation with the caller's waker token.
    ///
    /// Not yet completed: the waker is (re)registered and the handle stays
    /// valid.  Completed: the slot is removed, the index is invalidated to
    /// the sentinel, and the completion record carries the payload back out.
    pub fn poll(&mut self, driver: &mut DriverState<P>, waker: u64) -> (r: OpPoll<P>)
        requires
            old(driver).wf(),
            old(self).valid(*old(driver)),
        ensures
            final(driver).wf(),
            final(driver).capacity() == old(driver).capacity(),
            final(driver).sq_tags() == old(driver).sq_tags(),
            final(driver).sq_len() == old(driver).sq_len(),
            (old(driver).slot(old(self).index as int) is Submitted || old(driver).slot(
                old(self).index as int,
            ) is Waiting) ==> r is Pending && *final(self) == *old(self) && final(self).valid(
                *final(driver),
            ) && final(driver).slot(old(self).index as int) == Lifecycle::<P>::Waiting(waker),
            old(driver).slot(old(self).index as int) matches Lifecycle::Completed(res, fl) ==> (
            r matches OpPoll::Ready(c) && c.data == old(self).data.unwrap() && c.result == res
                && c.flags == fl) && !final(driver).live(old(self).index as int) && final(self).index == usize::MAX && final(self).data is None,
            forall|j: int|
                j != old(self).index as int ==> (#[trigger] final(driver).live(j) <==> old(
                    driver,
                ).live(j)),
            forall|j: int|
                j != old(self).index as int && old(driver).live(j) ==> #[trigger] final(driver).slot(j) == old(driver).slot(j),
    {
        let i = self.index;
        let prev = driver.ops.replace(i, Lifecycle::Submitted);
        match prev {
            Lifecycle::Submitted => {
                driver.ops.replace(i, Lifecycle::Waiting(waker));
                OpPoll::Pending
            },
            Lifecycle::Waiting(w) => {
                if w != waker {
                    driver.ops.replace(i, Lifecycle::Waiting(waker));
                } else {
                    driver.ops.replace(i, Lifecycle::Waiting(w));
                }
                OpPoll::Pending
            },
            Lifecycle::Ignored(_p) => vstd::pervasive::unreached(),
            Lifecycle::Completed(res, fl) => {
                driver.ops.remove(i);
                self.index = usize::MAX;
                let data = self.data.take().unwrap();
                OpPoll::Ready(Completion { data, result: res, flags: fl })
            },
        }
    }

    /// Give the handle up.  A pending slot takes ownership of the payload and
    /// becomes `Ignored`, persisting until the kernel's completion arrives,
    /// so that memory the kernel may still write into stays alive; a
    /// completed slot is removed at once; a spent handle changes nothing.
    pub fn retire(self, driver: &mut DriverState<P>)
        requires
            old(driver).wf(),
            old(driver).live(self.index as int) ==> !(old(driver).slot(self.index as int)
                is Ignored),
            old(driver).live(self.index as int) && !(old(driver).slot(self.index as int)
                is Completed) ==> self.data is Some,
        ensures
            final(driver).wf(),
            final(driver).capacity() == old(driver).capacity(),
            final(driver).sq_tags() == old(driver).sq_tags(),
            final(driver).sq_len() == old(driver).sq_len(),
            !old(driver).live(self.index as int) ==> *final(driver) == *old(driver),
            old(driver).live(self.index as int) && !(old(driver).slot(self.index as int)
                is Completed) ==> final(driver).live(self.index as int) && final(driver).slot(
                self.index as int,
            ) == Lifecycle::Ignored(self.data.unwrap()),
            old(driver).live(self.index as int) && old(driver).slot(self.index as int)
                is Completed ==> !final(driver).live(self.index as int),
            forall|j: int|
                j != self.index as int ==> (#[trigger] final(driver).live(j) <==> old(
                    driver,
                ).live(j)),
            forall|j: int|
                j != self.index as int && old(driver).live(j) ==> #[trigger] final(driver).slot(j)
                    == old(driver).slot(j),
    {
        let Op { index, data } = self;
        if !driver.ops.contains(index) {
            return ;
        }
        let prev = driver.ops.replace(index, Lifecycle::Submitted);
        match prev {
            Lifecycle::Submitted => {
                driver.ops.replace(index, Lifecycle::Ignored(data.unwrap()));
            },
            Lifecycle::Waiting(_w) => {
                driver.ops.replace(index, Lifecycle::Ignored(data.unwrap()));
            },
            Lifecycle::Completed(..) => {
                driver.ops.remove(index);
            },
            Lifecycle::Ignored(_p) => vstd::pervasive::unreached(),
        }
    }
}

} // verus!
