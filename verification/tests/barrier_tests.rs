use async_local::barrier::{ShutdownBarrier, ShutdownGuard, StopAction};

#[test]
fn new_barrier_is_empty() {
    let b = ShutdownBarrier::new();
    assert_eq!(b.guard_count, 0);
    assert!(!b.shutdown_finalized);
    let d = ShutdownBarrier::default();
    assert_eq!(d.guard_count, 0);
    assert!(!d.shutdown_finalized);
    assert!(!ShutdownGuard::new().enabled);
    assert!(!ShutdownGuard::default().enabled);
}

#[test]
fn guarding_twice_registers_once() {
    let mut b = ShutdownBarrier::new();
    let mut g = ShutdownGuard::new();
    g.guard_thread_shutdown(&mut b);
    assert!(g.enabled);
    assert_eq!(b.guard_count, 1);
    g.guard_thread_shutdown(&mut b);
    assert!(g.enabled);
    assert_eq!(b.guard_count, 1);
}

#[test]
fn unguarded_thread_proceeds() {
    let mut b = ShutdownBarrier { guard_count: 2, shutdown_finalized: false };
    let mut g = ShutdownGuard::new();
    assert_eq!(g.rendezvous(&mut b), StopAction::Proceed);
    assert_eq!(b.guard_count, 2);
    assert!(!b.shutdown_finalized);
    assert!(!g.enabled);
}

#[test]
fn last_guarded_thread_finalizes() {
    let mut b = ShutdownBarrier::new();
    let mut gs = [ShutdownGuard::new(), ShutdownGuard::new(), ShutdownGuard::new()];
    for g in gs.iter_mut() {
        g.guard_thread_shutdown(&mut b);
    }
    assert_eq!(b.guard_count, 3);
    assert_eq!(gs[1].rendezvous(&mut b), StopAction::Wait);
    assert!(!b.shutdown_finalized);
    assert_eq!(gs[0].rendezvous(&mut b), StopAction::Wait);
    assert!(!b.shutdown_finalized);
    assert_eq!(b.guard_count, 1);
    assert_eq!(gs[2].rendezvous(&mut b), StopAction::Finalize);
    assert!(b.shutdown_finalized);
    assert_eq!(b.guard_count, 0);
    assert!(gs[2].enabled);
}

#[test]
fn single_thread_round_trip_finalizes() {
    let mut b = ShutdownBarrier::new();
    let mut g = ShutdownGuard::new();
    g.guard_thread_shutdown(&mut b);
    assert_eq!(g.rendezvous(&mut b), StopAction::Finalize);
    assert_eq!(b.guard_count, 0);
    assert!(b.shutdown_finalized);
}

#[test]
fn counts_wrap_like_atomics() {
    let mut b = ShutdownBarrier { guard_count: usize::MAX, shutdown_finalized: false };
    assert_eq!(b.enter(), usize::MAX);
    assert_eq!(b.guard_count, 0);
    assert_eq!(b.leave(), 0);
    assert_eq!(b.guard_count, usize::MAX);
    assert!(!b.shutdown_finalized);
}

#[test]
fn finalized_stays_finalized() {
    let mut b = ShutdownBarrier { guard_count: 1, shutdown_finalized: false };
    assert_eq!(b.leave(), 1);
    assert!(b.shutdown_finalized);
    assert_eq!(b.enter(), 0);
    assert_eq!(b.enter(), 1);
    assert_eq!(b.leave(), 2);
    assert!(b.shutdown_finalized);
}

#[test]
fn it_synchronizes_shutdown() {
    let mut b = ShutdownBarrier { guard_count: 0, shutdown_finalized: true };
    b.shutdown_finalized = false;
    let mut first = ShutdownGuard::default();
    let mut second = ShutdownGuard::default();
    first.guard_thread_shutdown(&mut b);
    second.guard_thread_shutdown(&mut b);
    assert_eq!(b.guard_count, 2);
    assert_eq!(first.rendezvous(&mut b), StopAction::Wait);
    assert!(!b.shutdown_finalized);
    assert_eq!(second.rendezvous(&mut b), StopAction::Finalize);
    assert!(b.shutdown_finalized);
    assert_eq!(b.guard_count, 0);
}
