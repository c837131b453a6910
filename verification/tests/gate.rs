use admission_control::gate::AcquireStep;
use admission_control::gate::SemaphoreWithMaxWaiters;
use admission_control::pool::Permit;

fn expect_ready(step: AcquireStep) -> Permit {
    match step {
        AcquireStep::Ready(permit) => permit,
        AcquireStep::Wait => panic!("acquisition should have completed immediately, not waited"),
        AcquireStep::GateFull => panic!("acquisition should have completed immediately, not been refused"),
    }
}

#[test]
fn test_semaphore_max_waiters() {
    let mut gate = SemaphoreWithMaxWaiters::new(1, 1);
    // The first acquisition completes immediately.
    let permit = expect_ready(gate.acquire());
    // While that permit is held, a second caller is suspended as a waiter.
    assert!(matches!(gate.acquire(), AcquireStep::Wait));
    assert_eq!(gate.num_waiters(), 1);
    // A third caller finds the waiter cap reached and is refused outright.
    assert!(matches!(gate.acquire(), AcquireStep::GateFull));
    assert!(!matches!(gate.acquire(), AcquireStep::Ready(_)));
    // Releasing the first permit lets the suspended caller complete.
    gate.release(permit);
    let second_permit = gate.complete_wait();
    assert_eq!(gate.num_waiters(), 0);
    // Once that caller is done, a fresh acquisition succeeds again.
    gate.release(second_permit);
    assert!(matches!(gate.acquire(), AcquireStep::Ready(_)));
}

#[test]
fn test_gate_fast_path_ignores_waiter_cap() {
    // Even with a waiter cap of zero, a free permit is handed out at once:
    // the fast path never consults nor changes the waiter count.
    let mut gate = SemaphoreWithMaxWaiters::new(1, 0);
    let step = gate.acquire();
    assert!(matches!(step, AcquireStep::Ready(_)));
    assert_eq!(gate.num_waiters(), 0);
    assert_eq!(gate.available_permits(), 0);
    // With the permit held and no waiting allowed, the next caller is refused.
    assert!(matches!(gate.acquire(), AcquireStep::GateFull));
}

#[test]
fn test_cancelled_waiter_frees_the_slot() {
    let mut gate = SemaphoreWithMaxWaiters::new(1, 1);
    let permit = expect_ready(gate.acquire());
    assert!(matches!(gate.acquire(), AcquireStep::Wait));
    assert!(matches!(gate.acquire(), AcquireStep::GateFull));
    // The suspended caller gives up: its waiter slot is given back exactly
    // once, so the cap can be reached again by later callers.
    gate.cancel_wait();
    assert_eq!(gate.num_waiters(), 0);
    assert!(matches!(gate.acquire(), AcquireStep::Wait));
    assert!(matches!(gate.acquire(), AcquireStep::GateFull));
    gate.cancel_wait();
    gate.release(permit);
    assert_eq!(gate.available_permits(), 1);
}

#[test]
fn test_gate_capacity_survives_repeated_rounds() {
    let mut gate = SemaphoreWithMaxWaiters::new(2, 1);
    for _ in 0..6 {
        let first = expect_ready(gate.acquire());
        let second = expect_ready(gate.acquire());
        gate.release(first);
        gate.release(second);
        assert_eq!(gate.available_permits(), 2);
    }
}

#[test]
fn test_gate_reports_its_configuration() {
    let gate = SemaphoreWithMaxWaiters::new(5, 7);
    assert_eq!(gate.total_permits(), 5);
    assert_eq!(gate.available_permits(), 5);
    assert_eq!(gate.max_num_waiters(), 7);
    assert_eq!(gate.num_waiters(), 0);
}
