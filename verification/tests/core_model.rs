use async_uring::driver::{CqEvent, DriverState, Op, OpPoll, Reaped, SubmitOutcome};
use async_uring::lifecycle::{decode_result, CompleteAction, Lifecycle};
use async_uring::slab::Slab;

#[test]
fn slab_insert_get_remove() {
    let mut slab: Slab<u32> = Slab::new();
    let a = slab.insert(10);
    let b = slab.insert(20);
    assert!(slab.contains(a));
    assert!(slab.contains(b));
    assert_eq!(*slab.get(a), 10);
    assert_eq!(*slab.get(b), 20);
    let v = slab.remove(a);
    assert_eq!(v, 10);
    assert!(!slab.contains(a));
    assert_eq!(*slab.get(b), 20);
}

#[test]
fn slab_never_reuses_live_index() {
    let mut slab: Slab<u32> = Slab::new();
    let a = slab.insert(1);
    let b = slab.insert(2);
    let c = slab.insert(3);
    assert!(a != b && b != c && a != c);
    slab.remove(b);
    let d = slab.insert(4);
    // The vacated index may come back, but never one that is still live.
    assert_eq!(d, b);
    assert!(d != a && d != c);
}

#[test]
fn slab_replace_keeps_index_live() {
    let mut slab: Slab<u32> = Slab::new();
    let a = slab.insert(1);
    let prev = slab.replace(a, 9);
    assert_eq!(prev, 1);
    assert!(slab.contains(a));
    assert_eq!(*slab.get(a), 9);
}

#[test]
fn decode_result_exact_values() {
    assert_eq!(decode_result(14), Ok(14));
    assert_eq!(decode_result(0), Ok(0));
    assert_eq!(decode_result(-2), Err(2));
    assert_eq!(decode_result(i32::MIN), Err(2147483648));
}

#[test]
fn lifecycle_complete_stores_when_submitted() {
    let mut slot: Lifecycle<u8> = Lifecycle::Submitted;
    let act = slot.complete(Ok(5), 1);
    assert!(matches!(act, CompleteAction::Stored));
    assert!(matches!(slot, Lifecycle::Completed(Ok(5), 1)));
}

#[test]
fn lifecycle_complete_wakes_when_waiting() {
    let mut slot: Lifecycle<u8> = Lifecycle::Waiting(7);
    let act = slot.complete(Err(11), 0);
    assert!(matches!(act, CompleteAction::Wake(7)));
    assert!(matches!(slot, Lifecycle::Completed(Err(11), 0)));
}

#[test]
fn lifecycle_complete_releases_when_ignored() {
    let mut slot: Lifecycle<Vec<u8>> = Lifecycle::Ignored(vec![1, 2, 3]);
    let act = slot.complete(Ok(0), 0);
    match act {
        CompleteAction::Release(payload) => assert_eq!(payload, vec![1, 2, 3]),
        _ => panic!("abandoned slot must hand its payload back"),
    }
}

#[test]
fn submitted_entries_carry_slot_index() {
    let mut d: DriverState<u8> = DriverState::new(4);
    let first = match d.submit_with(1, io_uring::opcode::Nop::new().build()) {
        SubmitOutcome::Queued(op) => op,
        SubmitOutcome::RingFull(..) => panic!("ring cannot be full yet"),
    };
    let second = match d.submit_with(2, io_uring::opcode::Nop::new().build()) {
        SubmitOutcome::Queued(op) => op,
        SubmitOutcome::RingFull(..) => panic!("ring cannot be full yet"),
    };
    assert_ne!(first.index, second.index);
    let entries = d.take_sq();
    assert_eq!(entries.len(), 2);
    assert_eq!(entries[0].get_user_data(), first.index as u64);
    assert_eq!(entries[1].get_user_data(), second.index as u64);
}

#[test]
fn full_ring_hands_submission_back() {
    let mut d: DriverState<u8> = DriverState::new(1);
    assert!(matches!(
        d.submit_with(1, io_uring::opcode::Nop::new().build()),
        SubmitOutcome::Queued(_)
    ));
    match d.submit_with(9, io_uring::opcode::Nop::new().build()) {
        SubmitOutcome::RingFull(data, _entry) => assert_eq!(data, 9),
        SubmitOutcome::Queued(_) => panic!("ring of one entry must be full"),
    }
    let flushed = d.take_sq();
    assert_eq!(flushed.len(), 1);
    assert!(matches!(
        d.submit_with(9, io_uring::opcode::Nop::new().build()),
        SubmitOutcome::Queued(_)
    ));
}

#[test]
fn poll_then_completion_round_trips_payload() {
    let mut d: DriverState<Vec<u8>> = DriverState::new(4);
    let mut op = match d.submit_with(vec![42, 43], io_uring::opcode::Nop::new().build()) {
        SubmitOutcome::Queued(op) => op,
        SubmitOutcome::RingFull(..) => panic!("ring cannot be full yet"),
    };
    assert!(matches!(op.poll(&mut d, 5), OpPoll::Pending));
    match d.dispatch(op.index as u64, 3, 0) {
        Reaped::Wake(w) => assert_eq!(w, 5),
        _ => panic!("a waiting slot must hand back its waker"),
    }
    match op.poll(&mut d, 5) {
        OpPoll::Ready(c) => {
            assert_eq!(c.data, vec![42, 43]);
            assert_eq!(c.result, Ok(3));
            assert_eq!(c.flags, 0);
        }
        OpPoll::Pending => panic!("completed operation must be ready"),
    }
    assert_eq!(op.index, usize::MAX);
    assert!(op.data.is_none());
}

#[test]
fn completion_without_poll_is_stored() {
    let mut d: DriverState<u8> = DriverState::new(4);
    let mut op = match d.submit_with(7, io_uring::opcode::Nop::new().build()) {
        SubmitOutcome::Queued(op) => op,
        SubmitOutcome::RingFull(..) => panic!("ring cannot be full yet"),
    };
    assert!(matches!(d.dispatch(op.index as u64, -2, 0), Reaped::Stored));
    match op.poll(&mut d, 1) {
        OpPoll::Ready(c) => {
            assert_eq!(c.data, 7);
            assert_eq!(c.result, Err(2));
        }
        OpPoll::Pending => panic!("completed operation must be ready"),
    }
}

#[test]
fn completion_for_unknown_slot_is_corrupt() {
    let mut d: DriverState<u8> = DriverState::new(4);
    assert!(matches!(d.dispatch(99, 0, 0), Reaped::Corrupt));
}

#[test]
fn duplicate_completion_is_corrupt() {
    let mut d: DriverState<u8> = DriverState::new(4);
    let op = match d.submit_with(1, io_uring::opcode::Nop::new().build()) {
        SubmitOutcome::Queued(op) => op,
        SubmitOutcome::RingFull(..) => panic!("ring cannot be full yet"),
    };
    let i = op.index as u64;
    assert!(matches!(d.dispatch(i, 0, 0), Reaped::Stored));
    assert!(matches!(d.dispatch(i, 0, 0), Reaped::Corrupt));
}

#[test]
fn abandoned_op_keeps_payload_until_completion() {
    let mut d: DriverState<Vec<u8>> = DriverState::new(4);
    let mut op = match d.submit_with(vec![9; 16], io_uring::opcode::Nop::new().build()) {
        SubmitOutcome::Queued(op) => op,
        SubmitOutcome::RingFull(..) => panic!("ring cannot be full yet"),
    };
    // Poll once to register a waker, then abandon the handle without awaiting.
    assert!(matches!(op.poll(&mut d, 4), OpPoll::Pending));
    let abandoned = op.index as u64;
    op.retire(&mut d);
    // Independent operations on the same driver still work, on a fresh index.
    let other = match d.submit_with(vec![1], io_uring::opcode::Nop::new().build()) {
        SubmitOutcome::Queued(op) => op,
        SubmitOutcome::RingFull(..) => panic!("ring cannot be full yet"),
    };
    assert_ne!(other.index as u64, abandoned);
    assert!(matches!(d.dispatch(other.index as u64, 1, 0), Reaped::Stored));
    // The abandoned slot held the payload until the kernel's answer arrived.
    match d.dispatch(abandoned, 0, 0) {
        Reaped::Release(payload) => assert_eq!(payload, vec![9; 16]),
        _ => panic!("abandoned slot must persist until its completion"),
    }
    // And now it is gone.
    assert!(matches!(d.dispatch(abandoned, 0, 0), Reaped::Corrupt));
}

#[test]
fn retire_after_completion_removes_slot() {
    let mut d: DriverState<u8> = DriverState::new(4);
    let op = match d.submit_with(1, io_uring::opcode::Nop::new().build()) {
        SubmitOutcome::Queued(op) => op,
        SubmitOutcome::RingFull(..) => panic!("ring cannot be full yet"),
    };
    let i = op.index as u64;
    assert!(matches!(d.dispatch(i, 0, 0), Reaped::Stored));
    op.retire(&mut d);
    assert!(matches!(d.dispatch(i, 0, 0), Reaped::Corrupt));
}

#[test]
fn tick_delivers_outcomes_in_event_order() {
    let mut d: DriverState<u8> = DriverState::new(8);
    let mut a = match d.submit_with(1, io_uring::opcode::Nop::new().build()) {
        SubmitOutcome::Queued(op) => op,
        SubmitOutcome::RingFull(..) => panic!("ring cannot be full yet"),
    };
    let mut b = match d.submit_with(2, io_uring::opcode::Nop::new().build()) {
        SubmitOutcome::Queued(op) => op,
        SubmitOutcome::RingFull(..) => panic!("ring cannot be full yet"),
    };
    let c = match d.submit_with(3, io_uring::opcode::Nop::new().build()) {
        SubmitOutcome::Queued(op) => op,
        SubmitOutcome::RingFull(..) => panic!("ring cannot be full yet"),
    };
    assert!(matches!(a.poll(&mut d, 10), OpPoll::Pending));
    assert!(matches!(b.poll(&mut d, 11), OpPoll::Pending));
    // One drained batch: completions are applied and answered in ring order.
    let events = vec![
        CqEvent { user_data: b.index as u64, result: 0, flags: 0 },
        CqEvent { user_data: a.index as u64, result: 0, flags: 0 },
        CqEvent { user_data: c.index as u64, result: 4, flags: 0 },
    ];
    let outcomes = d.tick(&events);
    assert_eq!(outcomes.len(), 3);
    assert!(matches!(outcomes[0], Reaped::Wake(11)));
    assert!(matches!(outcomes[1], Reaped::Wake(10)));
    assert!(matches!(outcomes[2], Reaped::Stored));
}

#[test]
fn op_new_takes_a_fresh_slot() {
    let mut d: DriverState<u8> = DriverState::new(4);
    let a = Op::new(1, &mut d);
    let b = Op::new(2, &mut d);
    assert_ne!(a.index, b.index);
    assert_eq!(a.data, Some(1));
    assert_eq!(b.data, Some(2));
}
