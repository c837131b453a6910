//! Admission-control primitives for a request-processing pipeline.
//!
//! Two collaborating primitives bound how much concurrent work a component
//! accepts, rejecting excess demand instead of queueing it unboundedly:
//!
//! - [`load_shed::LoadShed`], a concurrency limiter that caps the number of
//!   simultaneously in-flight requests flowing through a wrapped service,
//!   rejecting new requests as soon as the cap is reached;
//! - [`gate::SemaphoreWithMaxWaiters`], a bounded-waiter resource gate: a
//!   counting semaphore that also caps the number of callers allowed to wait
//!   for a permit, failing fast once that secondary limit is reached.
//!
//! [`pool::PermitPool`] is the shared accounting core: a counting pool of
//! fixed capacity whose permits are move-only values, so that every unit of
//! capacity is released exactly once.

pub mod gate;
pub mod load_shed;
pub mod pool;
