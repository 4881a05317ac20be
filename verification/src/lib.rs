//! A minimal runtime for cooperative sequence iteration with type erasure.
//!
//! A producer of values implements the [`async_iter::AsyncIter`] capability:
//! each request for the next item returns a suspendable step computation
//! (a [`step::Step`]) that an external driver polls to completion.  Around
//! that capability the crate builds erased handles that hide the concrete
//! producer while keeping resource reclamation correct:
//!
//! * [`async_iter::DynAsyncIter`] — an erased handle over a producer, with an
//!   ownership tag recording whether disposal must reclaim the producer;
//! * [`inline_async_iter::InlineAsyncIterImpl`] — a zero-allocation variant
//!   that keeps the in-flight computation in a slot inside the wrapper, with a
//!   runtime-checked exclusive-access cell guarding the size-estimate slot;
//! * [`dynerx`] — a pointer-kind erasure utility: one erased object over a
//!   value reached through an owned, shared-refcounted, borrowed or
//!   exclusively-borrowed pointer, which still releases the original resource
//!   exactly once, and only through the path its kind demands.

pub mod async_iter;
pub mod dyn_async_iter;
pub mod dyner;
pub mod dynerx;
pub mod inline_async_iter;
pub mod step;
pub mod yielding_range;
