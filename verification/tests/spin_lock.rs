use rust_atomics::spin_lock::{Guard, SpinLock};

#[test]
fn lock_gives_access_and_drop_releases() {
    let mut lock = SpinLock::new(Vec::<i32>::new());
    let mut guard = lock.lock();
    guard.deref_mut().push(1);
    guard.drop();
    let mut guard = lock.lock();
    guard.deref_mut().push(2);
    guard.deref_mut().push(3);
    guard.drop();
    let guard = lock.lock();
    assert_eq!(guard.deref().as_slice(), [1, 2, 3]);
    guard.drop();
}

#[test]
fn ten_parties_of_a_hundred_increments_make_a_thousand() {
    let mut lock = SpinLock::new(0u64);
    for _party in 0..10 {
        for _round in 0..100 {
            let mut guard = lock.lock();
            *guard.deref_mut() += 1;
            guard.drop();
        }
    }
    let guard = lock.lock();
    assert_eq!(*guard.deref(), 1000);
    guard.drop();
}

#[test]
fn a_round_on_a_taken_lock_gives_nothing() {
    let mut lock = SpinLock::new(String::from("kept"));
    assert!(!lock.is_locked());
    // a holder that never lets go
    std::mem::forget(lock.lock());
    assert!(lock.is_locked());
    assert!(lock.try_lock().is_none());
    assert!(lock.try_lock().is_none());
    assert!(lock.is_locked());
}

#[test]
fn a_round_on_a_free_lock_takes_it() {
    let mut lock = SpinLock::new(3u8);
    let mut guard = lock.try_lock().expect("the lock is free");
    *guard.deref_mut() = 4;
    assert_eq!(*guard.deref(), 4);
    guard.drop();
    assert!(!lock.is_locked());
    let guard = lock.lock();
    assert_eq!(*guard.deref(), 4);
    guard.drop();
}

#[derive(Clone, Copy, PartialEq)]
enum Position {
    Outside,
    Inside,
    Loaded(u64),
    Stored,
}

#[test]
fn interleaved_parties_lose_no_update() {
    let mut lock = SpinLock::new(0u64);
    let mut parties = vec![(Position::Outside, 100u32); 10];
    let mut random: u64 = 0x2545_F491_4F6C_DD1D;
    let mut spins = 0u32;
    while parties.iter().any(|party| party.1 > 0) {
        // whose turn it is follows no pattern
        random = random
            .wrapping_mul(6364136223846793005)
            .wrapping_add(1442695040888963407);
        let who = usize::try_from(random >> 33).unwrap() % parties.len();
        let (position, rounds_left) = parties[who];
        match position {
            Position::Outside if rounds_left == 0 => {}
            Position::Outside => {
                if lock.try_lock().is_some() {
                    parties[who].0 = Position::Inside;
                } else {
                    spins += 1;
                }
            }
            Position::Inside => {
                let guard = Guard { lock: &mut lock };
                parties[who].0 = Position::Loaded(*guard.deref());
            }
            Position::Loaded(value) => {
                let mut guard = Guard { lock: &mut lock };
                *guard.deref_mut() = value + 1;
                parties[who].0 = Position::Stored;
            }
            Position::Stored => {
                Guard { lock: &mut lock }.drop();
                parties[who] = (Position::Outside, rounds_left - 1);
            }
        }
        let holders = parties
            .iter()
            .filter(|party| party.0 != Position::Outside)
            .count();
        assert!(holders <= 1);
        assert_eq!(lock.is_locked(), holders == 1);
    }
    assert!(spins > 0);
    assert!(!lock.is_locked());
    let guard = lock.lock();
    assert_eq!(*guard.deref(), 1000);
    guard.drop();
}
