//! A bounded-waiter resource gate: a counting pool of fixed capacity with a
//! secondary cap on the number of callers allowed to wait for a permit.
//!
//! This type itself is the sequential decision core. An acquisition either
//! completes at once, is refused because the waiter cap is reached, or
//! registers the caller as a waiter; the surrounding runtime then suspends the
//! caller and, when a permit becomes free or the caller gives up, reports back
//! through [`SemaphoreWithMaxWaiters::complete_wait`] or
//! [`SemaphoreWithMaxWaiters::cancel_wait`]. Every step keeps the waiter count
//! an exact record of the callers currently suspended, and never above the
//! configured cap.

use vstd::prelude::*;

use crate::pool::Permit;
use crate::pool::PermitPool;

verus! {

/// Outcome of one non-suspending acquisition step on the semaphore.
pub enum AcquireStep {
    /// A permit was free: the caller holds it now, without ever having been
    /// counted as a waiter.
    Ready(Permit),
    /// No permit was free and the waiter cap was not reached: the caller is
    /// now counted as a waiter and must suspend until a permit becomes free
    /// (then [`SemaphoreWithMaxWaiters::complete_wait`]) or it gives up (then
    /// [`SemaphoreWithMaxWaiters::cancel_wait`]).
    Wait,
    /// No permit was free and as many callers as allowed were already
    /// waiting: the caller is refused outright and was never enqueued.
    GateFull,
}

/// A counting semaphore of `num_permits` permits that refuses to let more
/// than `max_num_waiters` callers wait for one.
pub struct SemaphoreWithMaxWaiters {
    permits: PermitPool,
    num_waiters: usize,
    max_num_waiters: usize,
}

impl SemaphoreWithMaxWaiters {
    /// Total number of permits this semaphore was created with.
    pub closed spec fn capacity(&self) -> nat {
        self.permits.capacity()
    }

    /// Number of permits currently free.
    pub closed spec fn available(&self) -> nat {
        self.permits.available()
    }

    /// Number of callers currently suspended waiting for a permit.
    pub closed spec fn waiting(&self) -> nat {
        self.num_waiters as nat
    }

    /// The cap on simultaneously waiting callers, fixed at construction.
    pub closed spec fn max_waiters(&self) -> nat {
        self.max_num_waiters as nat
    }

    /// The identity of the underlying pool: permits handed out here carry it,
    /// and only such permits can be released here.
    pub closed spec fn id(&self) -> int {
        self.permits.id()
    }

    /// Well-formedness: the pool is well-formed and the waiter count never
    /// exceeds the cap.
    pub open spec fn wf(&self) -> bool {
        &&& self.available() <= self.capacity()
        &&& self.waiting() <= self.max_waiters()
    }

    /// The semaphore as it stands after a free permit is taken, the waiter count
    /// untouched.
    pub closed spec fn spec_grab(self) -> SemaphoreWithMaxWaiters {
        SemaphoreWithMaxWaiters { permits: self.permits.spec_acquire(), ..self }
    }

    /// The semaphore as it stands after one more caller starts waiting.
    pub closed spec fn spec_start_wait(self) -> SemaphoreWithMaxWaiters {
        SemaphoreWithMaxWaiters { num_waiters: (self.num_waiters + 1) as usize, ..self }
    }

    /// The semaphore as it stands after one waiter stops waiting without taking a
    /// permit.
    pub closed spec fn spec_stop_wait(self) -> SemaphoreWithMaxWaiters {
        SemaphoreWithMaxWaiters { num_waiters: (self.num_waiters - 1) as usize, ..self }
    }

    /// The semaphore as it stands after one permit is returned to the pool.
    pub closed spec fn spec_release(self) -> SemaphoreWithMaxWaiters {
        SemaphoreWithMaxWaiters { permits: self.permits.spec_release(), ..self }
    }

    /// Creates a gate with `num_permits` permits, all free, no waiters, and a
    /// cap of `max_num_waiters` on simultaneously waiting callers.
    pub fn new(num_permits: usize, max_num_waiters: usize) -> (gate: SemaphoreWithMaxWaiters)
        ensures
            gate.wf(),
            gate.capacity() == num_permits,
            gate.available() == num_permits,
            gate.waiting() == 0,
            gate.max_waiters() == max_num_waiters,
    {
        SemaphoreWithMaxWaiters {
            permits: PermitPool::new(num_permits),
            num_waiters: 0,
            max_num_waiters,
        }
    }

    /// One acquisition step.
    ///
    /// With a permit free, the caller gets it at once and the waiter count is
    /// never consulted nor changed. With none free, the caller is enqueued as
    /// a waiter exactly when fewer than `max_num_waiters` callers are already
    /// waiting, and refused otherwise with nothing changed.
    pub fn acquire(&mut self) -> (step: AcquireStep)
        requires
            old(self).wf(),
        ensures
            final(self).wf(),
            final(self).capacity() == old(self).capacity(),
            final(self).max_waiters() == old(self).max_waiters(),
            final(self).id() == old(self).id(),
            step matches AcquireStep::Ready(permit) ==> permit.issuer() == old(self).id(),
            old(self).available() > 0 ==> step is Ready && *final(self) == old(self).spec_grab(),
            old(self).available() > 0 ==> final(self).waiting() == old(self).waiting()
                && final(self).available() == old(self).available() - 1,
            old(self).available() == 0 && old(self).waiting() < old(self).max_waiters() ==> {
                &&& step is Wait
                &&& *final(self) == old(self).spec_start_wait()
                &&& final(self).waiting() == old(self).waiting() + 1
                &&& final(self).available() == old(self).available()
            },
            old(self).available() == 0 && old(self).waiting() >= old(self).max_waiters() ==> {
                &&& step is GateFull
                &&& *final(self) == *old(self)
            },
    {
        match self.permits.try_acquire() {
            Some(permit) => AcquireStep::Ready(permit),
            None => {
                if self.num_waiters >= self.max_num_waiters {
                    AcquireStep::GateFull
                } else {
                    self.num_waiters = self.num_waiters + 1;
                    AcquireStep::Wait
                }
            },
        }
    }

    /// Hands a freed permit to a suspended waiter: the waiter stops waiting
    /// and holds the permit. Called by the surrounding runtime once a permit
    /// is free for a caller that [`SemaphoreWithMaxWaiters::acquire`] enqueued.
    pub fn complete_wait(&mut self) -> (permit: Permit)
        requires
            old(self).wf(),
            old(self).waiting() > 0,
            old(self).available() > 0,
        ensures
            final(self).wf(),
            final(self).capacity() == old(self).capacity(),
            final(self).max_waiters() == old(self).max_waiters(),
            final(self).id() == old(self).id(),
            permit.issuer() == old(self).id(),
            *final(self) == old(self).spec_grab().spec_stop_wait(),
            final(self).waiting() == old(self).waiting() - 1,
            final(self).available() == old(self).available() - 1,
    {
        self.num_waiters = self.num_waiters - 1;
        let permit_opt = self.permits.try_acquire();
        match permit_opt {
            Some(permit) => permit,
            None => unreached(),
        }
    }

    /// A suspended waiter gives up (for instance because the caller was
    /// cancelled): the waiter count drops by exactly one and nothing else
    /// changes, so later callers can reach the waiter cap again.
    pub fn cancel_wait(&mut self)
        requires
            old(self).wf(),
            old(self).waiting() > 0,
        ensures
            final(self).wf(),
            *final(self) == old(self).spec_stop_wait(),
            final(self).capacity() == old(self).capacity(),
            final(self).max_waiters() == old(self).max_waiters(),
            final(self).id() == old(self).id(),
            final(self).waiting() == old(self).waiting() - 1,
            final(self).available() == old(self).available(),
    {
        self.num_waiters = self.num_waiters - 1;
    }

    /// Returns a permit to the pool, freeing one unit of capacity.
    pub fn release(&mut self, permit: Permit)
        requires
            old(self).wf(),
            old(self).available() < old(self).capacity(),
            permit.issuer() == old(self).id(),
        ensures
            final(self).wf(),
            *final(self) == old(self).spec_release(),
            final(self).capacity() == old(self).capacity(),
            final(self).max_waiters() == old(self).max_waiters(),
            final(self).id() == old(self).id(),
            final(self).waiting() == old(self).waiting(),
            final(self).available() == old(self).available() + 1,
    {
        self.permits.release(permit);
    }

    /// Number of permits currently free.
    pub fn available_permits(&self) -> (r: usize)
        ensures
            r == self.available(),
    {
        self.permits.available_permits()
    }

    /// Total number of permits this semaphore was created with.
    pub fn total_permits(&self) -> (r: usize)
        ensures
            r == self.capacity(),
    {
        self.permits.total_permits()
    }

    /// Number of callers currently counted as waiting.
    pub fn num_waiters(&self) -> (r: usize)
        ensures
            r == self.waiting(),
    {
        self.num_waiters
    }

    /// The cap on simultaneously waiting callers.
    pub fn max_num_waiters(&self) -> (r: usize)
        ensures
            r == self.max_waiters(),
    {
        self.max_num_waiters
    }
}

/// Law: the fast path never touches the waiter count. Taking a free permit
/// leaves the number of waiting callers exactly as it was, whatever the cap.
pub proof fn lemma_fast_path_ignores_waiters(gate: SemaphoreWithMaxWaiters)
    requires
        gate.wf(),
        gate.available() > 0,
    ensures
        gate.spec_grab().waiting() == gate.waiting(),
        gate.spec_grab().available() == gate.available() - 1,
{
    crate::pool::lemma_acquire_effect(gate.permits);
}

/// Law: cancellation is exact. A caller that starts waiting and then gives
/// up restores precisely the earlier state, so an aborted wait decrements
/// the waiter count exactly once and later callers can fill the waiter cap
/// again.
pub proof fn lemma_cancel_restores_gate(gate: SemaphoreWithMaxWaiters)
    requires
        gate.wf(),
        gate.waiting() < gate.max_waiters(),
    ensures
        gate.spec_start_wait().spec_stop_wait() == gate,
{
}

/// Law: no capacity leak. Taking a free permit and then releasing it
/// restores precisely the earlier state.
pub proof fn lemma_gate_no_permit_leak(gate: SemaphoreWithMaxWaiters)
    requires
        gate.wf(),
        gate.available() > 0,
    ensures
        gate.spec_grab().spec_release() == gate,
{
    crate::pool::lemma_no_permit_leak(gate.permits);
}

} // verus!
