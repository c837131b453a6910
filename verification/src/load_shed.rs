//! A concurrency limiter for a wrapped request-handling service.
//!
//! [`LoadShed`] caps the number of simultaneously in-flight requests by
//! drawing a permit from a shared counting pool before each request and
//! rejecting the request outright when the pool is exhausted. The pool is a
//! `tokio` semaphore shared by every clone of the limiter, so the ceiling
//! applies jointly across all clones.
//!
//! The protocol is two-phase: [`LoadShed::check_admission`] draws and stores
//! a permit (or rejects), and [`LoadShed::submit`] consumes that stored
//! permit exactly once, handing it out so that its release can be tied to the
//! completion of the in-flight request. Submitting without a prior successful
//! admission check is a protocol violation: [`LoadShed::submit`] makes the
//! check its precondition, and [`LoadShed::try_submit`] reports the violation
//! to callers that cannot establish it, never silently ignoring it.

use std::sync::Arc;

use tokio::sync::OwnedSemaphorePermit;
use tokio::sync::Semaphore;

use vstd::prelude::*;

verus! {

#[verifier::external_type_specification]
#[verifier::external_body]
pub struct ExSemaphore(Semaphore);

#[verifier::external_type_specification]
#[verifier::external_body]
pub struct ExOwnedSemaphorePermit(OwnedSemaphorePermit);

/// The largest number of permits a `tokio::sync::Semaphore` can be created
/// with (its `MAX_PERMITS`, an eighth of the address space); asking for more
/// makes its constructor panic.
pub const SEMAPHORE_MAX_PERMITS: usize = usize::MAX / 8;

/// The number of permits a semaphore was created with: a function of the
/// creation argument alone, and of nothing else. Nothing in this crate adds
/// or forgets permits, so the ceiling a semaphore enforces stays this number.
pub uninterp spec fn semaphore_permits(semaphore: Semaphore) -> nat;

/// Relies on `tokio::sync::Semaphore::new`: creates a semaphore with exactly
/// `permits` permits. Its source panics when `permits` exceeds
/// `MAX_PERMITS`, so that case is required away; the semaphores created here
/// are never closed, since no caller in this crate ever closes one.
#[verifier::external_body]
fn semaphore_new(permits: usize) -> (semaphore: Semaphore)
    requires
        permits <= SEMAPHORE_MAX_PERMITS,
    ensures
        semaphore_permits(semaphore) == permits,
{
    Semaphore::new(permits)
}

/// Relies on `tokio::sync::Semaphore::try_acquire_owned`, through a clone of
/// the `Arc`: returns a permit only when one is immediately free, without
/// ever blocking. The semaphore is shared between threads, so no particular
/// outcome is promised; a closed semaphore (which this crate never produces)
/// is treated as exhausted, as the error-to-option conversion makes both
/// failures a rejection.
#[verifier::external_body]
fn try_acquire_owned(permits: &Arc<Semaphore>) -> (r: Option<OwnedSemaphorePermit>) {
    permits.clone().try_acquire_owned().ok()
}

/// Relies on `std::sync::Arc::clone`: the clone refers to the same semaphore
/// as the original.
#[verifier::external_body]
fn share_pool(permits: &Arc<Semaphore>) -> (r: Arc<Semaphore>)
    ensures
        r == *permits,
{
    permits.clone()
}

/// An error representation that can stand for "admission rejected because the
/// in-flight ceiling is reached".
///
/// The wrapped service's error type implements this, so callers observe a
/// uniform error type whether a failure came from overload or from the
/// service itself.
pub trait MakeLoadShedError: Sized {
    /// Builds the error value that reports overload.
    fn make_load_shed_error() -> Self;
}

/// The limiter's own rejection: the in-flight ceiling was reached at
/// admission time. Recoverable by the caller; never retried internally.
#[derive(Clone, Copy, Debug, PartialEq, Eq, Structural)]
pub struct Overloaded;

impl MakeLoadShedError for Overloaded {
    fn make_load_shed_error() -> Overloaded {
        Overloaded
    }
}

/// A violation of the two-phase protocol: a submission without a prior,
/// still-unconsumed successful admission check. This reports a programming
/// error in the caller, not a recoverable condition.
#[derive(Clone, Copy, Debug, PartialEq, Eq, Structural)]
pub struct ProtocolViolation;

/// Tracks the number of in-flight requests being processed by a service and
/// rejects new incoming requests if the number of in-flight requests exceeds
/// a specified limit.
///
/// The counting pool is shared by every clone; the locally held permit never
/// is. A held-but-unconsumed permit exists only between a successful
/// [`LoadShed::check_admission`] and the following [`LoadShed::submit`] on
/// the same handle.
pub struct LoadShed {
    permits: Arc<Semaphore>,
    permit_opt: Option<OwnedSemaphorePermit>,
}

impl LoadShed {
    /// The shared counting pool this handle draws from.
    pub closed spec fn pool(&self) -> Arc<Semaphore> {
        self.permits
    }

    /// Whether this handle holds an admission that has not been consumed yet.
    pub closed spec fn holds_admission(&self) -> bool {
        self.permit_opt is Some
    }

    /// The in-flight ceiling this handle enforces: the number of permits its
    /// shared pool was created with.
    pub open spec fn cap(&self) -> nat {
        semaphore_permits(*self.pool())
    }

    /// The readiness half of the two-phase protocol. When no permit is held
    /// yet, draws one from the shared pool without blocking; when the pool is
    /// exhausted, reports overload at once, leaving the handle untouched. A
    /// handle that already holds an unconsumed admission stays as it is and
    /// reports success.
    pub fn check_admission<E: MakeLoadShedError>(&mut self) -> (r: Result<(), E>)
        ensures
            final(self).pool() == old(self).pool(),
            final(self).cap() == old(self).cap(),
            r is Ok <==> final(self).holds_admission(),
            old(self).holds_admission() ==> r is Ok && *final(self) == *old(self),
            r is Err ==> !old(self).holds_admission() && *final(self) == *old(self),
    {
        if self.permit_opt.is_none() {
            match try_acquire_owned(&self.permits) {
                Some(permit) => {
                    self.permit_opt = Some(permit);
                },
                None => {
                    return Err(E::make_load_shed_error());
                },
            }
        }
        Ok(())
    }

    /// The submission half of the two-phase protocol: consumes the admission
    /// obtained by the most recent successful [`LoadShed::check_admission`]
    /// and hands out the permit, whose release is to be tied to the
    /// completion of the in-flight request. Submitting is only meaningful on
    /// a handle whose admission check succeeded and has not been consumed
    /// yet; that two-phase order is this function's precondition. A caller
    /// that cannot establish it goes through [`LoadShed::try_submit`], which
    /// reports the violation instead.
    pub fn submit(&mut self) -> (permit: OwnedSemaphorePermit)
        requires
            old(self).holds_admission(),
        ensures
            final(self).pool() == old(self).pool(),
            final(self).cap() == old(self).cap(),
            !final(self).holds_admission(),
    {
        match self.permit_opt.take() {
            Some(permit) => permit,
            None => unreached(),
        }
    }

    /// The submission half in total form: succeeds exactly when an
    /// unconsumed admission is held, and otherwise reports the two-phase
    /// protocol violation, with the handle untouched — so a harness that
    /// deliberately breaks the protocol observes the violation rather than
    /// silence.
    pub fn try_submit(&mut self) -> (r: Result<OwnedSemaphorePermit, ProtocolViolation>)
        ensures
            final(self).pool() == old(self).pool(),
            final(self).cap() == old(self).cap(),
            !final(self).holds_admission(),
            r is Ok <==> old(self).holds_admission(),
            r is Err ==> *final(self) == *old(self),
    {
        if self.has_admission() {
            Ok(self.submit())
        } else {
            Err(ProtocolViolation)
        }
    }

    /// Whether this handle holds an unconsumed admission.
    pub fn has_admission(&self) -> (r: bool)
        ensures
            r == self.holds_admission(),
    {
        self.permit_opt.is_some()
    }

    /// A new handle on the same shared pool. The clone never inherits a held
    /// permit: every handle must perform its own two-phase check, while the
    /// in-flight ceiling keeps applying jointly across all clones.
    pub fn clone_handle(&self) -> (r: LoadShed)
        ensures
            r.pool() == self.pool(),
            r.cap() == self.cap(),
            !r.holds_admission(),
    {
        LoadShed { permits: share_pool(&self.permits), permit_opt: None }
    }
}

/// Allows at most `max_in_flight_requests` in-flight requests before
/// rejecting new incoming requests.
#[derive(Clone, Copy, Debug)]
pub struct LoadShedLayer {
    max_in_flight_requests: usize,
}

impl LoadShedLayer {
    /// The configured ceiling on in-flight requests.
    pub closed spec fn max_in_flight(&self) -> nat {
        self.max_in_flight_requests as nat
    }

    /// Creates a new `LoadShedLayer` allowing at most `max_in_flight_requests`
    /// in-flight requests before rejecting new incoming requests.
    pub fn new(max_in_flight_requests: usize) -> (layer: LoadShedLayer)
        ensures
            layer.max_in_flight() == max_in_flight_requests,
    {
        LoadShedLayer { max_in_flight_requests }
    }

    /// Attaches a fresh counting pool of the configured size to a new
    /// limiter handle, which starts with no held permit. The service the
    /// limiter decorates is composed around this handle by the caller.
    pub fn layer(&self) -> (r: LoadShed)
        requires
            self.max_in_flight() <= SEMAPHORE_MAX_PERMITS,
        ensures
            r.cap() == self.max_in_flight(),
            !r.holds_admission(),
    {
        let semaphore = semaphore_new(self.max_in_flight_requests);
        LoadShed { permits: Arc::new(semaphore), permit_opt: None }
    }

    /// The configured ceiling on in-flight requests.
    pub fn max_in_flight_requests(&self) -> (r: usize)
        ensures
            r == self.max_in_flight(),
    {
        self.max_in_flight_requests
    }
}

} // verus!
