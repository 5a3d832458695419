//! Per-operation lifecycle state machine.
//!
//! Every in-flight kernel operation is tracked by one slot holding a
//! `Lifecycle`.  The slot is created as `Submitted` when the submission entry
//! is queued, moves to `Waiting` when the owning handle is polled, to
//! `Ignored` when the handle is dropped before the kernel answered, and to
//! `Completed` when the completion event arrives.  An `Ignored` slot owns the
//! operation's payload so that any buffer the kernel may still write into
//! stays alive until the completion is reaped.
//!
//! Wakers are identified by plain `u64` tokens: two tokens are equal exactly
//! when waking one would wake the same task as the other, which is how the
//! embedding runtime models `Waker::will_wake`.

use vstd::prelude::*;

verus! {

/// State of one lifecycle slot.  `P` is the operation's payload: the buffers,
/// descriptors and addresses the kernel operation works on.
pub enum Lifecycle<P> {
    /// The kernel holds the submission entry; nobody polled the handle yet.
    Submitted,
    /// The owning handle was polled; the waker token to notify on completion.
    Waiting(u64),
    /// The owning handle was dropped before completion; the slot now owns the
    /// payload and must outlive the kernel operation.
    Ignored(P),
    /// The kernel reported completion: the decoded result and the auxiliary
    /// completion flags.
    Completed(Result<u32, u32>, u32),
}

/// What the driver must do after feeding a completion event to a slot.
pub enum CompleteAction<P> {
    /// The result was stored; no task was waiting yet.
    Stored,
    /// The result was stored; wake the task behind this waker token.
    Wake(u64),
    /// The slot was abandoned: remove it and free this payload, now that the
    /// kernel has relinquished every pointer into it.
    Release(P),
}

/// Meaning of a raw kernel completion result: a non-negative value is a
/// count, a negative value carries the errno as its absolute value.
pub open spec fn decoded(raw: i32) -> Result<u32, u32> {
    if raw >= 0 {
        Result::Ok(raw as u32)
    } else {
        Result::Err((-(raw as int)) as u32)
    }
}

/// Decode a raw kernel completion result.
pub fn decode_result(raw: i32) -> (r: Result<u32, u32>)
    ensures
        r == decoded(raw),
{
    if raw >= 0 {
        Ok(raw as u32)
    } else {
        let wide: i64 = raw as i64;
        Err((-wide) as u32)
    }
}

impl<P> Lifecycle<P> {
    /// Feed a completion event into this slot.
    ///
    /// A `Completed` slot never receives a second completion: that would mean
    /// the slot accounting is corrupt, so it is excluded here and detected by
    /// the driver before the call.  An `Ignored` slot surrenders its payload
    /// and is left dismantled (`Submitted`); the driver removes it at once.
    pub fn complete(&mut self, result: Result<u32, u32>, flags: u32) -> (act: CompleteAction<P>)
        requires
            !((*old(self)) is Completed),
        ensures
            (*old(self)) is Submitted ==> (*final(self)) == Lifecycle::<P>::Completed(result, flags)
                && act is Stored,
            (*old(self)) matches Lifecycle::Waiting(w) ==> (*final(self)) == Lifecycle::<P>::Completed(
                result,
                flags,
            ) && act == CompleteAction::<P>::Wake(w),
            (*old(self)) matches Lifecycle::Ignored(p) ==> act == CompleteAction::<P>::Release(p)
                && (*final(self)) is Submitted,
    {
        let mut cur = Lifecycle::Submitted;
        core::mem::swap(&mut cur, self);
        match cur {
            Lifecycle::Submitted => {
                *self = Lifecycle::Completed(result, flags);
                CompleteAction::Stored
            },
            Lifecycle::Waiting(w) => {
                *self = Lifecycle::Completed(result, flags);
                CompleteAction::Wake(w)
            },
            Lifecycle::Ignored(p) => CompleteAction::Release(p),
            Lifecycle::Completed(r0, f0) => vstd::pervasive::unreached(),
        }
    }
}

} // verus!
