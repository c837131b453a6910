use admission_control::pool::PermitPool;

#[test]
fn test_pool_starts_full() {
    let pool = PermitPool::new(3);
    assert_eq!(pool.total_permits(), 3);
    assert_eq!(pool.available_permits(), 3);
}

#[test]
fn test_pool_admission_ceiling() {
    let mut pool = PermitPool::new(2);
    let first = pool.try_acquire().expect("first draw should succeed");
    let second = pool.try_acquire().expect("second draw should succeed");
    // The ceiling is exact: with both permits outstanding, the next draw
    // fails, and succeeds again as soon as any one permit comes back.
    assert!(pool.try_acquire().is_none());
    pool.release(first);
    let third = pool.try_acquire().expect("a freed permit can be drawn again");
    pool.release(second);
    pool.release(third);
    assert_eq!(pool.available_permits(), 2);
}

#[test]
fn test_pool_capacity_survives_repeated_rounds() {
    let mut pool = PermitPool::new(3);
    // Admit-complete rounds many times over the capacity never exhaust it.
    for _ in 0..4 {
        let mut held = Vec::new();
        for _ in 0..3 {
            held.push(pool.try_acquire().expect("pool should not be exhausted"));
        }
        assert!(pool.try_acquire().is_none());
        for permit in held {
            pool.release(permit);
        }
        assert_eq!(pool.available_permits(), 3);
    }
}

#[test]
fn test_pool_with_zero_capacity_rejects() {
    let mut pool = PermitPool::new(0);
    assert!(pool.try_acquire().is_none());
    assert_eq!(pool.available_permits(), 0);
}
