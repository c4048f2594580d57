//! The decisions of a pooled connection manager for a key-value and publish/subscribe
//! store, and of a trace sink that persists structured events into that store and
//! reads them back.
//!
//! Nothing here connects, waits or prints. A caller performs each step against the
//! store and hands back what happened; which session to use, what to write, what an
//! answer means and what to do next is decided, and proved, here.

use vstd::prelude::*;

pub mod cmd;
pub mod docker;
pub mod endpoints;
pub mod errors;
pub mod json;
pub mod k8_manager;
pub mod pool;
pub mod record;
pub mod redis_manager;
pub mod redis_tracing;
pub mod rendezvous;
pub mod text;
pub mod timestamp;

verus! {

/// Adds two sizes whose sum fits in a `usize`.
pub fn add(left: usize, right: usize) -> (sum: usize)
    requires
        left + right <= usize::MAX,
    ensures
        sum == left + right,
{
    left + right
}

} // verus!
