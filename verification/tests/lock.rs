use spinlock::Guard;
use spinlock::SpinLock;

fn push_under_swap(lock: &SpinLock<Vec<i32>>, item: i32) -> bool {
    match lock.lock_with_swap(1) {
        Some(mut guard) => {
            guard.push(item);
            true
        }
        None => false,
    }
}

fn push_under_cas(lock: &SpinLock<Vec<i32>>, item: i32) -> bool {
    match lock.lock_with_cas(64) {
        Some(mut guard) => {
            guard.push(item);
            true
        }
        None => false,
    }
}

fn leave_early(lock: &SpinLock<Vec<i32>>, stop_at: i32) -> usize {
    let mut guard = lock.lock_with_swap(1).unwrap();
    for item in 0..10 {
        if item == stop_at {
            return guard.len();
        }
        guard.push(item);
    }
    guard.len()
}

fn shared_between_threads<L: Sync>(_lock: &L) {}

fn sent_between_threads<G: Send>(_guard: &G) {}

#[test]
fn it_works_with_swap() {
    let x = SpinLock::new(Vec::new());
    x.lock_with_swap(1).unwrap().push(42);
    {
        let mut g = x.lock_with_swap(1).unwrap();
        g.push(21);
        g.push(21);
    }
    let g = x.lock_with_swap(1).unwrap();
    assert!(g.as_slice() == [42, 21, 21] || g.as_slice() == [21, 21, 42]);
}

#[test]
fn it_works_with_cas() {
    let x = SpinLock::new(Vec::new());
    x.lock_with_cas(64).unwrap().push(1);
    {
        let mut g = x.lock_with_cas(64).unwrap();
        g.push(2);
        g.push(2);
    }
    let g = x.lock_with_cas(64).unwrap();
    assert!(g.as_slice() == [1, 2, 2] || g.as_slice() == [2, 2, 1]);
}

#[test]
fn a_new_lock_holds_its_value() {
    let lock = SpinLock::new(String::from("payload"));
    let guard = lock.lock_with_swap(1).unwrap();
    assert_eq!(guard.as_str(), "payload");
    assert_eq!(guard.len(), 7);
}

#[test]
fn a_free_lock_is_taken_by_the_first_exchange() {
    let lock = SpinLock::new(5u8);
    let guard = lock.lock_with_swap(1);
    assert!(guard.is_some());
    assert_eq!(*guard.unwrap(), 5);
}

#[test]
fn a_free_lock_is_taken_by_compare_and_swap_within_a_few_attempts() {
    let lock = SpinLock::new(5u8);
    let guard = lock.lock_with_cas(64);
    assert!(guard.is_some());
    assert_eq!(*guard.unwrap(), 5);
}

#[test]
fn a_free_lock_is_taken_without_spinning() {
    let lock = SpinLock::new(vec![1u8]);
    assert_eq!(*lock.lock_with_swap(u64::MAX).unwrap(), [1]);
    assert_eq!(*lock.lock_with_cas(u64::MAX).unwrap(), [1]);
    assert_eq!(*lock.lock_with_swap(u64::MAX).unwrap(), [1]);
}

#[test]
fn no_attempts_grant_nothing_and_take_nothing() {
    let lock = SpinLock::new(1u64);
    assert!(lock.lock_with_swap(0).is_none());
    assert!(lock.lock_with_cas(0).is_none());
    assert!(lock.lock_with_swap(1).is_some());
    assert!(lock.lock_with_cas(64).is_some());
}

#[test]
fn a_second_guard_is_refused_while_one_is_live() {
    let lock = SpinLock::new(7u32);
    let guard = lock.lock_with_swap(1).unwrap();
    assert!(lock.lock_with_swap(1).is_none());
    assert!(lock.lock_with_swap(1000).is_none());
    assert!(lock.lock_with_cas(1).is_none());
    assert!(lock.lock_with_cas(1000).is_none());
    assert_eq!(*guard, 7);
    drop(guard);
    let guard = lock.lock_with_cas(64).unwrap();
    assert!(lock.lock_with_swap(1000).is_none());
    assert!(lock.lock_with_cas(1000).is_none());
    drop(guard);
    assert!(lock.lock_with_swap(1).is_some());
}

#[test]
fn a_failed_acquisition_leaves_the_holder_alone() {
    let lock = SpinLock::new(vec![1, 2, 3]);
    let mut guard = lock.lock_with_swap(1).unwrap();
    guard.push(4);
    assert!(lock.lock_with_swap(10).is_none());
    assert!(lock.lock_with_cas(10).is_none());
    assert_eq!(*guard, [1, 2, 3, 4]);
    guard.push(5);
    drop(guard);
    assert_eq!(*lock.lock_with_swap(1).unwrap(), [1, 2, 3, 4, 5]);
}

#[test]
fn the_next_holder_sees_what_the_last_one_wrote() {
    let lock = SpinLock::new(0u64);
    {
        let mut guard = lock.lock_with_swap(1).unwrap();
        *guard = 10;
        *guard += 5;
    }
    {
        let mut guard = lock.lock_with_cas(64).unwrap();
        assert_eq!(*guard, 15);
        *guard *= 2;
    }
    let guard = lock.lock_with_swap(1).unwrap();
    assert_eq!(*guard, 30);
}

#[test]
fn a_guard_shows_its_own_writes() {
    let lock = SpinLock::new((1u8, 2u8));
    let mut guard = lock.lock_with_swap(1).unwrap();
    assert_eq!(*guard, (1, 2));
    guard.0 = 9;
    assert_eq!(*guard, (9, 2));
    *guard = (3, 4);
    assert_eq!(guard.0, 3);
    assert_eq!(guard.1, 4);
}

#[test]
fn no_update_is_lost() {
    let lock = SpinLock::new(Vec::new());
    let shares: [usize; 4] = [3, 0, 5, 2];
    let mut pushed = [0usize; 4];
    let mut round = 0;
    while pushed != shares {
        for party in 0..4 {
            if pushed[party] < shares[party] {
                let taken = if round % 2 == 0 {
                    push_under_swap(&lock, party as i32)
                } else {
                    push_under_cas(&lock, party as i32)
                };
                assert!(taken);
                pushed[party] += 1;
            }
        }
        round += 1;
    }
    let guard = lock.lock_with_swap(1).unwrap();
    assert_eq!(guard.len(), 10);
    for party in 0..4 {
        let count = guard.iter().filter(|item| **item == party as i32).count();
        assert_eq!(count, shares[party]);
    }
}

#[test]
fn an_update_refused_is_not_made() {
    let lock = SpinLock::new(Vec::new());
    let mut holder = lock.lock_with_swap(1).unwrap();
    holder.push(1);
    assert!(!push_under_swap(&lock, 2));
    assert!(!push_under_cas(&lock, 3));
    holder.push(4);
    drop(holder);
    assert!(push_under_swap(&lock, 5));
    assert_eq!(*lock.lock_with_swap(1).unwrap(), [1, 4, 5]);
}

#[test]
fn exchange_sections_do_not_interleave_second_party_first() {
    let lock = SpinLock::new(Vec::new());
    let mut second = lock.lock_with_swap(1).unwrap();
    second.push(21);
    assert!(!push_under_swap(&lock, 42));
    second.push(21);
    assert!(!push_under_swap(&lock, 42));
    drop(second);
    assert!(push_under_swap(&lock, 42));
    assert_eq!(*lock.lock_with_swap(1).unwrap(), [21, 21, 42]);
}

#[test]
fn exchange_sections_do_not_interleave_first_party_first() {
    let lock = SpinLock::new(Vec::new());
    let mut first = lock.lock_with_swap(1).unwrap();
    assert!(lock.lock_with_swap(3).is_none());
    first.push(42);
    drop(first);
    let mut second = lock.lock_with_swap(1).unwrap();
    second.push(21);
    second.push(21);
    drop(second);
    let guard = lock.lock_with_swap(1).unwrap();
    assert_eq!(*guard, [42, 21, 21]);
    assert_eq!(guard.len(), 3);
}

#[test]
fn compare_and_swap_sections_do_not_interleave_second_party_first() {
    let lock = SpinLock::new(Vec::new());
    let mut second = lock.lock_with_cas(64).unwrap();
    second.push(2);
    assert!(!push_under_cas(&lock, 1));
    second.push(2);
    drop(second);
    assert!(push_under_cas(&lock, 1));
    assert_eq!(*lock.lock_with_cas(64).unwrap(), [2, 2, 1]);
}

#[test]
fn compare_and_swap_sections_do_not_interleave_first_party_first() {
    let lock = SpinLock::new(Vec::new());
    assert!(push_under_cas(&lock, 1));
    let mut second = lock.lock_with_cas(64).unwrap();
    second.push(2);
    assert!(!push_under_cas(&lock, 1));
    second.push(2);
    drop(second);
    assert_eq!(*lock.lock_with_cas(64).unwrap(), [1, 2, 2]);
}

#[test]
fn an_early_return_releases_the_lock() {
    let lock = SpinLock::new(Vec::new());
    assert_eq!(leave_early(&lock, 3), 3);
    let guard = lock.lock_with_swap(1).unwrap();
    assert_eq!(*guard, [0, 1, 2]);
    drop(guard);
    assert_eq!(leave_early(&lock, 100), 13);
    assert_eq!(lock.lock_with_swap(1).unwrap().len(), 13);
}

#[test]
fn a_guard_releases_once_however_often_the_lock_is_taken() {
    let lock = SpinLock::new(0u32);
    for turn in 0..100u32 {
        let mut guard = if turn % 2 == 0 {
            lock.lock_with_swap(1).unwrap()
        } else {
            lock.lock_with_cas(64).unwrap()
        };
        assert_eq!(*guard, turn);
        *guard += 1;
    }
    assert_eq!(*lock.lock_with_swap(1).unwrap(), 100);
}

#[test]
fn unlock_on_a_free_lock_changes_nothing() {
    let lock = SpinLock::new(vec![8]);
    lock.unlock();
    lock.unlock();
    let guard = lock.lock_with_swap(1).unwrap();
    assert_eq!(*guard, [8]);
}

#[test]
fn unlock_past_a_live_guard_grants_no_second_guard() {
    let lock = SpinLock::new(vec![8]);
    let mut guard = lock.lock_with_swap(1).unwrap();
    guard.push(9);
    lock.unlock();
    assert!(lock.lock_with_swap(5).is_none());
    lock.unlock();
    assert!(lock.lock_with_cas(5).is_none());
    guard.push(10);
    assert_eq!(*guard, [8, 9, 10]);
    drop(guard);
    let guard = lock.lock_with_swap(1).unwrap();
    assert_eq!(*guard, [8, 9, 10]);
}

#[test]
fn a_forgotten_guard_keeps_the_payload() {
    let lock = SpinLock::new(vec![8]);
    std::mem::forget(lock.lock_with_swap(1).unwrap());
    assert!(lock.lock_with_swap(5).is_none());
    lock.unlock();
    assert!(lock.lock_with_swap(5).is_none());
    assert!(lock.lock_with_cas(5).is_none());
}

#[test]
fn a_guard_comes_from_an_acquisition_only() {
    let lock = SpinLock::new(1i8);
    let granted: Option<Guard<'_, i8>> = lock.lock_with_swap(1);
    let guard: Guard<'_, i8> = granted.unwrap();
    assert_eq!(*guard, 1);
}

#[test]
fn a_lock_of_a_sendable_payload_is_shared_between_threads() {
    let lock = SpinLock::new(vec![String::from("a")]);
    shared_between_threads(&lock);
    let guard = lock.lock_with_swap(1).unwrap();
    sent_between_threads(&guard);
    assert_eq!(guard.len(), 1);
}
