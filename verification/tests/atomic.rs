use rust_atomics::atomic::{fence, AtomicCounter, AtomicFlag, MemoryOrder};

#[test]
fn counter_adds_and_tells_what_it_held() {
    let mut counter = AtomicCounter::new(5);
    assert_eq!(counter.load(MemoryOrder::Relaxed), 5);
    assert_eq!(counter.fetch_add(3, MemoryOrder::Relaxed), 5);
    assert_eq!(counter.load(MemoryOrder::Acquire), 8);
    assert_eq!(counter.fetch_sub(8, MemoryOrder::Release), 8);
    assert_eq!(counter.load(MemoryOrder::SeqCst), 0);
}

#[test]
fn counter_wraps_around() {
    let mut counter = AtomicCounter::new(usize::MAX);
    assert_eq!(counter.fetch_add(1, MemoryOrder::Relaxed), usize::MAX);
    assert_eq!(counter.load(MemoryOrder::Relaxed), 0);
    assert_eq!(counter.fetch_sub(1, MemoryOrder::Relaxed), 0);
    assert_eq!(counter.load(MemoryOrder::Relaxed), usize::MAX);
    assert_eq!(counter.fetch_add(usize::MAX, MemoryOrder::Relaxed), usize::MAX);
    assert_eq!(counter.load(MemoryOrder::Relaxed), usize::MAX - 1);
    assert_eq!(counter.fetch_sub(usize::MAX, MemoryOrder::Relaxed), usize::MAX - 1);
    assert_eq!(counter.load(MemoryOrder::Relaxed), usize::MAX);
}

#[test]
fn counter_stores_and_swaps() {
    let mut counter = AtomicCounter::new(1);
    counter.store(7, MemoryOrder::Release);
    assert_eq!(counter.swap(9, MemoryOrder::AcqRel), 7);
    assert_eq!(counter.load(MemoryOrder::Relaxed), 9);
}

#[test]
fn compare_exchange_stores_only_on_a_match() {
    let mut counter = AtomicCounter::new(4);
    assert_eq!(
        counter.compare_exchange(3, 10, MemoryOrder::AcqRel, MemoryOrder::Relaxed),
        Err(4)
    );
    assert_eq!(counter.load(MemoryOrder::Relaxed), 4);
    assert_eq!(
        counter.compare_exchange(4, 10, MemoryOrder::AcqRel, MemoryOrder::Acquire),
        Ok(4)
    );
    assert_eq!(counter.load(MemoryOrder::Relaxed), 10);
    assert_eq!(
        counter.compare_exchange_weak(10, 11, MemoryOrder::Relaxed, MemoryOrder::Relaxed),
        Ok(10)
    );
    assert_eq!(
        counter.compare_exchange_weak(10, 12, MemoryOrder::Relaxed, MemoryOrder::Relaxed),
        Err(11)
    );
    assert_eq!(counter.load(MemoryOrder::Relaxed), 11);
}

#[test]
fn flag_swaps_and_stores() {
    let mut flag = AtomicFlag::new(false);
    assert!(!flag.load(MemoryOrder::Relaxed));
    assert!(!flag.swap(true, MemoryOrder::Acquire));
    assert!(flag.swap(true, MemoryOrder::Acquire));
    assert!(flag.load(MemoryOrder::Acquire));
    flag.store(false, MemoryOrder::Release);
    assert!(!flag.swap(false, MemoryOrder::AcqRel));
    fence(MemoryOrder::SeqCst);
    assert!(!flag.load(MemoryOrder::SeqCst));
}
