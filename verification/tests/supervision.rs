use stitch::supervisor::SupervisedBridge;

#[test]
fn new_builds_once_or_reports_the_factory_error() {
    let b = SupervisedBridge::new(|| Ok::<u32, String>(5), 3).unwrap();
    assert_eq!(b.inner(), Some(&5));
    assert_eq!(b.restart_count(), 0);
    assert_eq!(b.max_restarts(), 3);
    let e = SupervisedBridge::new(|| Err::<u32, String>("no binary".to_string()), 3);
    assert_eq!(e.err(), Some("no binary".to_string()));
}

#[test]
fn restarts_are_bounded_and_back_off() {
    let mut b = SupervisedBridge::new(|| Ok::<u32, String>(1), 9).unwrap();
    let delays: Vec<u64> = (0..9).map(|_| b.begin_restart().unwrap().delay_ms()).collect();
    assert_eq!(delays, vec![100, 200, 400, 800, 1600, 3200, 6400, 12800, 12800]);
    assert_eq!(b.restart_count(), 9);
    assert_eq!(b.begin_restart().err(), Some("max restarts (9) reached".to_string()));
    assert_eq!(b.restart_count(), 9);
}

#[test]
fn zero_restarts_allowed() {
    let mut b = SupervisedBridge::new(|| Ok::<u32, String>(1), 0).unwrap();
    assert_eq!(b.begin_restart().err(), Some("max restarts (0) reached".to_string()));
}

#[test]
fn factory_called_at_most_max_more_times() {
    let calls = std::sync::Arc::new(std::sync::atomic::AtomicU32::new(0));
    let c = calls.clone();
    let mut b = SupervisedBridge::new(
        move || {
            c.fetch_add(1, std::sync::atomic::Ordering::SeqCst);
            Ok::<u32, String>(0)
        },
        2,
    )
    .unwrap();
    for _ in 0..5 {
        if let Ok(permit) = b.begin_restart() {
            let _ = b.finish_restart(permit);
        }
        assert!(b.inner().is_some());
    }
    assert_eq!(calls.load(std::sync::atomic::Ordering::SeqCst), 3);
}

#[test]
fn finish_restart_replaces_or_keeps() {
    let counter = std::cell::Cell::new(0u32);
    let mut b = SupervisedBridge::new(
        move || {
            counter.set(counter.get() + 1);
            if counter.get() == 2 { Err("second build fails".to_string()) } else { Ok(counter.get()) }
        },
        3,
    )
    .unwrap();
    assert_eq!(b.inner(), Some(&1));
    let p = b.begin_restart().unwrap();
    assert_eq!(b.finish_restart(p), Err("second build fails".to_string()));
    assert_eq!(b.inner(), Some(&1));
    let p = b.begin_restart().unwrap();
    assert_eq!(b.finish_restart(p), Ok(()));
    assert_eq!(b.inner(), Some(&3));
    if let Some(v) = b.inner_mut() {
        *v = 10;
    }
    assert_eq!(b.inner(), Some(&10));
}

#[test]
fn restart_waits_then_rebuilds_until_the_budget_is_spent() {
    let mut b = SupervisedBridge::new(|| Ok::<u32, String>(7), 2).unwrap();
    let waited = std::cell::RefCell::new(Vec::new());
    assert_eq!(b.restart(|ms| waited.borrow_mut().push(ms)), Ok(()));
    assert_eq!(b.restart(|ms| waited.borrow_mut().push(ms)), Ok(()));
    assert_eq!(b.restart(|ms| waited.borrow_mut().push(ms)), Err("max restarts (2) reached".to_string()));
    assert_eq!(*waited.borrow(), vec![100, 200]);
    assert_eq!(b.restart_count(), 2);
    assert_eq!(b.inner(), Some(&7));
}

#[test]
fn restart_keeps_the_old_bridge_when_the_factory_fails() {
    let calls = std::cell::Cell::new(0u32);
    let mut b = SupervisedBridge::new(
        move || {
            calls.set(calls.get() + 1);
            if calls.get() == 1 { Ok(1u32) } else { Err("down".to_string()) }
        },
        3,
    )
    .unwrap();
    assert_eq!(b.restart(|_| {}), Err("down".to_string()));
    assert_eq!(b.inner(), Some(&1));
    assert_eq!(b.restart_count(), 1);
}
