use async_uring::executor::{
    create, current, ExecContext, IdSource, Pacer, Route, Scheduler, GLOBAL_CHECK_INTERVAL,
    YIELD_INTERVAL,
};
use async_uring::fd::{CloseAction, SharedFdState};

#[test]
fn create_hands_out_distinct_ids() {
    let mut ids = IdSource::new();
    let a = create(&mut ids);
    let b = create(&mut ids);
    let c = create(&mut ids);
    assert_eq!(a, 0);
    assert_eq!(b, 1);
    assert_eq!(c, 2);
}

#[test]
fn current_reads_installed_executor() {
    let installed = ExecContext { installed: Some(3) };
    assert_eq!(current(&installed), Some(3));
    let bare = ExecContext { installed: None };
    assert_eq!(current(&bare), None);
}

#[test]
fn schedule_routes_by_thread_identity() {
    let mut s = Scheduler::new(7);
    let eff = s.schedule(1, Some(7));
    assert!(eff.route == Route::Local);
    let eff = s.schedule(2, Some(8));
    assert!(eff.route == Route::Global);
    assert!(eff.rejected.is_none());
    let eff = s.schedule(3, None);
    assert!(eff.route == Route::Global);
    // The first dequeue checks the injector (tick zero), so the globally
    // routed runnable runs first and the local one stays queued.
    let dq = s.next_runnable(16);
    assert_eq!(dq.runnable, Some(2));
    assert!(dq.from_global);
}

#[test]
fn injector_feeds_the_run_loop() {
    let mut s = Scheduler::new(0);
    let (rejected, _wake) = s.push_global(42);
    assert!(rejected.is_none());
    let dq = s.next_runnable(16);
    assert!(dq.checked_global);
    assert!(dq.from_global);
    assert_eq!(dq.runnable, Some(42));
}

#[test]
fn injector_backlog_drains_behind_local_queue() {
    let mut s = Scheduler::new(0);
    s.push_global(1);
    s.push_global(2);
    s.push_global(3);
    let dq = s.next_runnable(16);
    assert_eq!(dq.runnable, Some(1));
    assert!(dq.from_global);
    // 2 and 3 were drained into the local queue and run next, in order,
    // without another injector check (tick counter is now off the interval).
    let dq = s.next_runnable(16);
    assert_eq!(dq.runnable, Some(2));
    assert!(!dq.checked_global);
    let dq = s.next_runnable(16);
    assert_eq!(dq.runnable, Some(3));
    assert!(!dq.checked_global);
}

#[test]
fn every_fifty_dequeues_check_the_injector() {
    let mut s = Scheduler::new(0);
    for i in 0..200u64 {
        s.push_local(i);
    }
    // Skip the first dequeue (tick 0 always checks), then count checks over
    // the next window of 50 consecutive dequeues with a non-empty local
    // queue: the policy must consult the injector at least once.
    let first = s.next_runnable(16);
    assert!(first.checked_global);
    let mut checks = 0;
    for _ in 0..GLOBAL_CHECK_INTERVAL {
        let dq = s.next_runnable(16);
        assert!(dq.runnable.is_some());
        if dq.checked_global {
            checks += 1;
        }
    }
    assert!(checks >= 1);
}

#[test]
fn empty_queues_park_the_run_loop() {
    let mut s = Scheduler::new(0);
    let dq = s.next_runnable(16);
    assert!(dq.runnable.is_none());
    assert!(dq.checked_global);
    s.sleep(9);
    // New work hands the parked waker back so the caller can invoke it.
    let wake = s.push_local(1);
    assert_eq!(wake, Some(9));
    let dq = s.next_runnable(16);
    assert_eq!(dq.runnable, Some(1));
}

#[test]
fn pacer_yields_exactly_every_hundred_runs() {
    let mut p = Pacer::new();
    for _ in 0..(YIELD_INTERVAL - 1) {
        assert!(!p.note_run());
    }
    assert!(p.note_run());
    // The count starts over after the yield.
    for _ in 0..(YIELD_INTERVAL - 1) {
        assert!(!p.note_run());
    }
    assert!(p.note_run());
}

#[test]
fn fd_close_is_commanded_only_on_last_drop() {
    let mut fd = SharedFdState::new(5);
    fd.clone_ref();
    fd.clone_ref();
    assert!(fd.drop_ref(true) == CloseAction::Keep);
    assert!(fd.drop_ref(true) == CloseAction::Keep);
    assert!(fd.drop_ref(true) == CloseAction::ScheduleClose);
}

#[test]
fn fd_dropped_after_runtime_exit_still_closes() {
    let mut fd = SharedFdState::new(5);
    assert_eq!(fd.raw_fd(), 5);
    // No driver is installed any more: the drop must still invalidate the
    // descriptor, synchronously.
    assert!(fd.drop_ref(false) == CloseAction::SyncClose);
}
