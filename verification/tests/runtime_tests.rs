use async_local::barrier::{ShutdownBarrier, StopAction};
use async_local::runtime::{runtime_configured, BarrierContext, Builder, BuilderView, Kind};

fn view(b: &Builder) -> BuilderView {
    BuilderView { kind: b.kind(), worker_threads: b.worker_thread_count() }
}

#[test]
fn current_thread_has_one_worker() {
    let b = Builder::new_current_thread();
    assert_eq!(view(&b), BuilderView { kind: Kind::CurrentThread, worker_threads: 1 });
}

#[test]
fn worker_threads_ignored_on_current_thread() {
    let mut b = Builder::new_current_thread();
    b.worker_threads(8);
    assert_eq!(b.worker_thread_count(), 1);
    assert_eq!(b.kind(), Kind::CurrentThread);
}

#[test]
fn worker_threads_overrides_environment() {
    let mut b = Builder::new_multi_thread(Some("3"));
    assert_eq!(b.worker_thread_count(), 3);
    b.worker_threads(7).enable_all();
    assert_eq!(view(&b), BuilderView { kind: Kind::MultiThread, worker_threads: 7 });
}

#[test]
fn environment_value_parses() {
    assert_eq!(Builder::new_multi_thread(Some("12")).worker_thread_count(), 12);
    assert_eq!(Builder::new_multi_thread(Some("+5")).worker_thread_count(), 5);
    assert_eq!(Builder::new_multi_thread(Some("007")).worker_thread_count(), 7);
    let max = usize::MAX.to_string();
    assert_eq!(Builder::new_multi_thread(Some(max.as_str())).worker_thread_count(), usize::MAX);
}

#[test]
fn unparsable_environment_falls_back_to_cpus() {
    let cpus = num_cpus::get();
    assert!(cpus >= 1);
    let too_big = format!("{}0", usize::MAX);
    for s in ["0", "+0", "000", "", "+", "-1", " 3", "3 ", "four", "1_000", "0x10", too_big.as_str()] {
        let b = Builder::new_multi_thread(Some(s));
        assert_eq!(b.worker_thread_count(), cpus, "value {:?}", s);
        assert_eq!(b.kind(), Kind::MultiThread);
    }
    assert_eq!(Builder::new_multi_thread(None).worker_thread_count(), cpus);
}

#[test]
fn worker_count_never_zero() {
    let mut b = Builder::new_multi_thread(Some("0"));
    assert!(b.worker_thread_count() >= 1);
    b.worker_threads(1);
    assert_eq!(b.worker_thread_count(), 1);
}

#[test]
fn environment_or_given_cores() {
    assert_eq!(Builder::new_multi_thread_from(Some("6"), 3).worker_thread_count(), 6);
    assert_eq!(Builder::new_multi_thread_from(Some("0"), 3).worker_thread_count(), 3);
    assert_eq!(Builder::new_multi_thread_from(Some("x"), 3).worker_thread_count(), 3);
    assert_eq!(Builder::new_multi_thread_from(None, 5).worker_thread_count(), 5);
    assert_eq!(Builder::new_multi_thread_from(None, 5).kind(), Kind::MultiThread);
}

#[test]
fn explicit_multi_thread_count() {
    let b = Builder::new_multi_thread_with(4);
    assert_eq!(view(&b), BuilderView { kind: Kind::MultiThread, worker_threads: 4 });
}

#[test]
fn built_runtime_has_time_enabled() {
    let mut b = Builder::new_multi_thread_with(2);
    b.worker_threads(2).enable_all();
    let rt = b.tokio_builder().build().unwrap();
    let v = rt.block_on(async {
        tokio::time::sleep(std::time::Duration::from_millis(1)).await;
        5
    });
    assert_eq!(v, 5);
}

#[test]
fn built_current_thread_runtime_runs() {
    let mut b = Builder::new_current_thread();
    b.enable_all();
    let rt = b.tokio_builder().build().unwrap();
    assert_eq!(rt.block_on(async { 1 + 1 }), 2);
}

#[test]
fn first_threads_are_runtime_workers() {
    let mut b = ShutdownBarrier::new();
    assert_eq!(b.on_thread_start(2), BarrierContext::RuntimeWorker);
    assert_eq!(b.on_thread_start(2), BarrierContext::RuntimeWorker);
    assert_eq!(b.on_thread_start(2), BarrierContext::PoolWorker);
    assert_eq!(b.on_thread_start(2), BarrierContext::PoolWorker);
    assert_eq!(b.guard_count, 4);
}

#[test]
fn stopping_threads_rendezvous() {
    let mut b = ShutdownBarrier { guard_count: 3, shutdown_finalized: false };
    assert_eq!(b.on_thread_stop(Some(BarrierContext::PoolWorker)), StopAction::Proceed);
    assert_eq!(b.on_thread_stop(Some(BarrierContext::RuntimeWorker)), StopAction::Wait);
    assert!(!b.shutdown_finalized);
    assert_eq!(b.on_thread_stop(Some(BarrierContext::PoolWorker)), StopAction::Finalize);
    assert!(b.shutdown_finalized);
    assert_eq!(b.guard_count, 0);
}

#[test]
fn thread_without_role_proceeds() {
    let mut b = ShutdownBarrier { guard_count: 2, shutdown_finalized: false };
    assert_eq!(b.on_thread_stop(None), StopAction::Proceed);
    assert_eq!(b.on_thread_stop(Some(BarrierContext::Owner)), StopAction::Finalize);
}

#[test]
fn runtime_configuration_check() {
    assert!(runtime_configured(&[true]));
    assert!(!runtime_configured(&[]));
    assert!(!runtime_configured(&[false]));
    assert!(!runtime_configured(&[true, true]));
}
