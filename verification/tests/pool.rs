use trace_store::pool::{ConnectionGuard, Pool};

#[test]
fn new_pool_is_empty() {
    let pool: Pool<u32> = Pool::new(3);
    assert_eq!(pool.len(), 0);
    assert!(pool.is_empty());
    assert_eq!(pool.max_size(), 3);
}

#[test]
fn checkout_of_empty_pool_gives_nothing() {
    let mut pool: Pool<u32> = Pool::new(3);
    assert_eq!(pool.checkout(), None);
    assert_eq!(pool.len(), 0);
}

#[test]
fn sessions_come_out_first_in_first_out() {
    let mut pool: Pool<u32> = Pool::new(3);
    assert!(pool.give_back(10));
    assert!(pool.give_back(20));
    assert!(pool.give_back(30));
    assert_eq!(pool.checkout(), Some(10));
    assert_eq!(pool.checkout(), Some(20));
    assert!(pool.give_back(40));
    assert_eq!(pool.checkout(), Some(30));
    assert_eq!(pool.checkout(), Some(40));
    assert_eq!(pool.checkout(), None);
}

#[test]
fn three_checkouts_then_three_returns_on_a_pool_of_two() {
    let mut pool: Pool<u32> = Pool::new(2);
    let mut live: Vec<u32> = Vec::new();
    for fresh in 1..=3u32 {
        // nothing is idle, so each checkout asks for a new session
        assert_eq!(pool.checkout(), None);
        live.push(fresh);
    }
    let mut discarded = 0;
    for session in live {
        if !pool.give_back(session) {
            discarded += 1;
        }
    }
    assert_eq!(pool.len(), 2);
    assert_eq!(discarded, 1);
    assert_eq!(pool.checkout(), Some(1));
    assert_eq!(pool.checkout(), Some(2));
    assert_eq!(pool.checkout(), None);
}

#[test]
fn pool_never_exceeds_its_limit() {
    let mut pool: Pool<usize> = Pool::new(4);
    for round in 0..50usize {
        if round % 3 == 0 {
            let _ = pool.checkout();
        } else {
            let _ = pool.give_back(round);
        }
        assert!(pool.len() <= pool.max_size());
    }
    assert_eq!(pool.len(), 4);
}

#[test]
fn pool_of_size_zero_keeps_nothing() {
    let mut pool: Pool<u32> = Pool::new(0);
    assert!(!pool.give_back(1));
    assert_eq!(pool.len(), 0);
    assert_eq!(pool.checkout(), None);
}

#[test]
fn guard_holds_until_released() {
    let mut guard = ConnectionGuard::new(7u32);
    assert!(guard.is_held());
    assert_eq!(*guard.connection(), 7);
    *guard.connection_mut() = 8;
    assert_eq!(*guard.connection(), 8);
    assert_eq!(guard.release(), Some(8));
    assert!(!guard.is_held());
    assert_eq!(guard.release(), None);
}

#[test]
fn guard_returns_its_session_once() {
    let mut pool: Pool<u32> = Pool::new(5);
    let mut guard = ConnectionGuard::new(7u32);
    guard.return_to(&mut pool);
    assert_eq!(pool.len(), 1);
    assert!(!guard.is_held());
    guard.return_to(&mut pool);
    assert_eq!(pool.len(), 1);
    assert_eq!(pool.checkout(), Some(7));
}

#[test]
fn guard_on_a_full_pool_drops_its_session() {
    let mut pool: Pool<u32> = Pool::new(1);
    assert!(pool.give_back(1));
    let mut guard = ConnectionGuard::new(2u32);
    guard.return_to(&mut pool);
    assert!(!guard.is_held());
    assert_eq!(pool.len(), 1);
    assert_eq!(pool.checkout(), Some(1));
}
