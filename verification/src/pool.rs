//! A counting pool of fixed capacity and the move-only permits it issues.
//!
//! The pool is the unit of accounting shared by both admission primitives: a
//! permit stands for one unit of exclusive capacity, and the pool's counters
//! say at every moment how many units are free and how many are outstanding.

use vstd::prelude::*;

verus! {

/// A single unit of exclusive capacity drawn from a [`PermitPool`].
///
/// A permit is move-only: it can be neither cloned nor copied, so one
/// successful acquisition accounts for exactly one unit of capacity until the
/// permit is handed back through [`PermitPool::release`]. Nothing outside this
/// module can construct one, and each permit records (in ghost state) which
/// pool issued it, so it can only ever be released back into that pool.
pub struct Permit {
    issuer: Ghost<int>,
}

impl Permit {
    /// The identity of the pool this permit was drawn from.
    pub closed spec fn issuer(&self) -> int {
        self.issuer@
    }
}

/// A counting pool of fixed capacity.
///
/// `available` free units remain out of `capacity` total; the difference is
/// the number of permits currently outstanding. The well-formedness invariant
/// [`PermitPool::wf`] keeps `available` within `capacity`, so the pool can
/// never account for more concurrent holders than it was created for.
pub struct PermitPool {
    capacity: usize,
    available: usize,
    id: Ghost<int>,
}

impl PermitPool {
    /// The pool's own identity, fixed at construction; permits remember it,
    /// and only permits carrying it can be released here.
    pub closed spec fn id(&self) -> int {
        self.id@
    }

    /// Total number of permits the pool was created with.
    pub closed spec fn capacity(&self) -> nat {
        self.capacity as nat
    }

    /// Number of permits currently free.
    pub closed spec fn available(&self) -> nat {
        self.available as nat
    }

    /// Number of permits currently handed out and not yet released.
    pub open spec fn outstanding(&self) -> nat {
        (self.capacity() - self.available()) as nat
    }

    /// Well-formedness: free permits never exceed the capacity.
    pub open spec fn wf(&self) -> bool {
        self.available() <= self.capacity()
    }

    /// The pool as it stands after one permit is drawn.
    pub closed spec fn spec_acquire(self) -> PermitPool {
        PermitPool { available: (self.available - 1) as usize, ..self }
    }

    /// The pool as it stands after one permit is returned.
    pub closed spec fn spec_release(self) -> PermitPool {
        PermitPool { available: (self.available + 1) as usize, ..self }
    }

    /// Creates a pool with `capacity` permits, all of them free.
    pub fn new(capacity: usize) -> (pool: PermitPool)
        ensures
            pool.wf(),
            pool.capacity() == capacity,
            pool.available() == capacity,
            pool.outstanding() == 0,
    {
        PermitPool { capacity, available: capacity, id: Ghost(arbitrary()) }
    }

    /// Non-blocking draw: returns a permit exactly when one is free, and
    /// otherwise leaves the pool untouched.
    pub fn try_acquire(&mut self) -> (r: Option<Permit>)
        requires
            old(self).wf(),
        ensures
            final(self).wf(),
            final(self).capacity() == old(self).capacity(),
            final(self).id() == old(self).id(),
            r.is_some() <==> old(self).available() > 0,
            r.is_some() ==> *final(self) == old(self).spec_acquire(),
            r.is_some() ==> final(self).available() == old(self).available() - 1,
            r matches Some(permit) ==> permit.issuer() == old(self).id(),
            r.is_none() ==> *final(self) == *old(self),
    {
        if self.available > 0 {
            self.available = self.available - 1;
            Some(Permit { issuer: Ghost(self.id@) })
        } else {
            None
        }
    }

    /// Returns one unit of capacity to the pool, consuming the permit: a
    /// released permit can never be released a second time.
    pub fn release(&mut self, permit: Permit)
        requires
            old(self).wf(),
            old(self).outstanding() > 0,
            permit.issuer() == old(self).id(),
        ensures
            final(self).wf(),
            final(self).capacity() == old(self).capacity(),
            final(self).id() == old(self).id(),
            *final(self) == old(self).spec_release(),
            final(self).available() == old(self).available() + 1,
    {
        let Permit { issuer: _ } = permit;
        self.available = self.available + 1;
    }

    /// Number of permits currently free.
    pub fn available_permits(&self) -> (r: usize)
        ensures
            r == self.available(),
    {
        self.available
    }

    /// Total number of permits the pool was created with.
    pub fn total_permits(&self) -> (r: usize)
        ensures
            r == self.capacity(),
    {
        self.capacity
    }
}

/// What one draw does to the counters: the capacity stays, one free permit
/// becomes outstanding.
pub proof fn lemma_acquire_effect(pool: PermitPool)
    requires
        pool.wf(),
        pool.available() > 0,
    ensures
        pool.spec_acquire().wf(),
        pool.spec_acquire().capacity() == pool.capacity(),
        pool.spec_acquire().available() == pool.available() - 1,
{
}

/// Law: exact admission ceiling. In every well-formed pool state the number of
/// outstanding permits is at most the configured capacity, so at most
/// `capacity` holders can be admitted at any instant, however many handles
/// share the pool.
pub proof fn lemma_admission_ceiling(pool: PermitPool)
    requires
        pool.wf(),
    ensures
        pool.outstanding() <= pool.capacity(),
{
}

/// Law: admission is refused exactly at the ceiling. A draw from a well-formed
/// pool can fail only in the states where all `capacity` permits are already
/// outstanding.
pub proof fn lemma_rejects_only_at_ceiling(pool: PermitPool)
    requires
        pool.wf(),
    ensures
        pool.available() == 0 <==> pool.outstanding() == pool.capacity(),
{
}

/// Law: no permit leak. Drawing a permit and then releasing it restores the
/// pool to exactly its pre-admission state, so any number of admit-complete
/// rounds leaves the capacity intact.
pub proof fn lemma_no_permit_leak(pool: PermitPool)
    requires
        pool.wf(),
        pool.available() > 0,
    ensures
        pool.spec_acquire().spec_release() == pool,
{
}

} // verus!
