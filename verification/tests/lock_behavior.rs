use rwlock::lock::RwLock;

use std::sync::atomic::AtomicUsize;
use std::sync::atomic::Ordering;

#[test]
fn fresh_lock_holds_its_value() {
    let lock = RwLock::new(7u32);
    let guard = lock.read().unwrap();
    assert_eq!(*guard.get(), 7);
}

#[test]
fn write_then_read_sees_value() {
    let mut lock = RwLock::new(0i64);
    {
        let mut guard = lock.write().unwrap();
        assert_eq!(*guard.get(), 0);
        guard.set(42);
        assert_eq!(*guard.get(), 42);
    }
    assert_eq!(*lock.read().unwrap().get(), 42);
    {
        let mut guard = lock.write().unwrap();
        assert_eq!(*guard.get(), 42);
        guard.set(7);
    }
    assert_eq!(*lock.read().unwrap().get(), 7);
    assert_eq!(*lock.read().unwrap().get(), 7);
}

#[test]
fn write_guard_exclusive_access() {
    let mut lock = RwLock::new(String::from("a"));
    {
        let mut guard = lock.write().unwrap();
        guard.get_mut().push('b');
        assert_eq!(guard.get().as_str(), "ab");
    }
    assert_eq!(lock.read().unwrap().get().as_str(), "ab");
}

#[test]
fn many_readers_hold_at_once() {
    let lock = RwLock::new(5i32);
    let guards: Vec<_> = (0..16).map(|_| lock.read().unwrap()).collect();
    for guard in &guards {
        assert_eq!(*guard.get(), 5);
    }
    drop(guards);
    // Every reader released, so a writer can enter again.
    let mut lock = lock;
    let mut guard = lock.write().unwrap();
    guard.set(6);
    drop(guard);
    assert_eq!(*lock.read().unwrap().get(), 6);
}

#[test]
fn counter_under_writers_and_readers() {
    let mut lock = RwLock::new(0u64);
    let mut last_seen: u64 = 0;
    for _ in 0..8 {
        for _ in 0..10_000 {
            let mut guard = lock.write().unwrap();
            let v = *guard.get();
            guard.set(v + 1);
        }
        // Snapshots between rounds never go backwards.
        let snapshot = *lock.read().unwrap().get();
        assert!(snapshot >= last_seen);
        last_seen = snapshot;
    }
    assert_eq!(*lock.read().unwrap().get(), 80_000);
}

#[test]
fn storm_of_mixed_operations() {
    let mut lock = RwLock::new(0u64);
    let mut writes: u64 = 0;
    let mut last_seen: u64 = 0;
    for i in 0..64u64 {
        for j in 0..10_000u64 {
            if (i + j) % 10 < 7 {
                let seen = *lock.read().unwrap().get();
                assert!(seen >= last_seen);
                last_seen = seen;
            } else {
                let mut guard = lock.write().unwrap();
                let v = *guard.get();
                guard.set(v + 1);
                writes += 1;
            }
        }
    }
    assert_eq!(*lock.read().unwrap().get(), writes);
}

#[test]
fn readers_concurrent_across_threads() {
    let lock = RwLock::new(11u8);
    let active = AtomicUsize::new(0);
    let peak = AtomicUsize::new(0);
    crossbeam_utils::thread::scope(|s| {
        for _ in 0..16 {
            s.spawn(|_| {
                let guard = lock.read().unwrap();
                assert_eq!(*guard.get(), 11);
                let now = active.fetch_add(1, Ordering::SeqCst) + 1;
                peak.fetch_max(now, Ordering::SeqCst);
                // Hold the guard until every reader has one, so all sixteen
                // are live at the same moment.
                while active.load(Ordering::SeqCst) < 16 {
                    std::hint::spin_loop();
                }
                drop(guard);
            });
        }
    })
    .unwrap();
    assert_eq!(peak.load(Ordering::SeqCst), 16);
}
