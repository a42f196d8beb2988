//! A fixed-capacity, thread-safe channel: a bounded ring buffer shared by
//! producer and consumer threads, with blocking and non-blocking send and
//! receive and an explicit, irreversible close operation.
//!
//! The ring-buffer state and every decision the channel makes are verified
//! code: see [`application::channel::ApplicationStack`] for the state and
//! its operation contracts, `model` for the transition functions they are
//! specified against, and `laws` for the ordering, capacity, close and
//! conservation theorems proved over them. Only the standard library's
//! mutex and condition variables stand behind trusted wrappers, declared in
//! the `sync` module and beside the channel that uses them.

use vstd::prelude::*;

pub mod application;
pub mod channel;
pub mod laws;
pub mod model;
mod sync;

use std::sync::Arc;

use crate::application::channel::ApplicationChannel;

verus! {

/// A cloneable handle to one shared channel.
///
/// Every handle obtained by cloning aliases the same shared channel state;
/// the shared state lives as long as its longest-lived handle and is
/// released when the last one is dropped. Today the only backend is the
/// in-memory [`ApplicationChannel`]; the enum leaves room for alternate
/// backends exposing the same operations.
#[derive(Clone)]
#[verifier::reject_recursive_types(T)]
pub enum Channel<T> {
    Application(Arc<ApplicationChannel<T>>),
}

/// Selects the backend that a channel handle is built over.
pub enum ChannelType {
    Application,
}

/// Errors reported by the channel operations.
///
/// `Poisoned` reports a lock left inconsistent by a thread that terminated
/// abnormally while holding it; it is never downgraded to any other kind.
#[derive(Debug)]
pub enum ChannelErrors {
    /// A non-blocking receive found no buffered value.
    NoneAvailable,
    /// The internal lock was left in an inconsistent state.
    Poisoned,
    /// A non-blocking send found no free slot.
    Full,
    /// The operation was attempted on, or woken by, a closed channel.
    Closed,
}

/// Errors reported when a channel cannot be constructed.
#[derive(Debug)]
pub enum CreationErrors {
    /// The requested capacity was zero.
    ZeroLength,
    /// The requested capacity exceeds the representable index range.
    LengthTooLarge,
}

} // verus!
