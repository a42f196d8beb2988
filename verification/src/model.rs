//! The mathematical model of one channel's shared state, and the transition
//! functions that every channel operation is specified against.
//!
//! A channel's state is a bounded sequence of buffered values, the fixed
//! buffer length it was built with, and an open flag. One buffer slot is
//! reserved to tell a full buffer from an empty one, so the usable capacity
//! is `length - 1`.

use vstd::prelude::*;

use crate::ChannelErrors;

verus! {

/// The abstract state of one channel: the buffered values in arrival order,
/// the fixed buffer length, and whether the channel is still open.
#[verifier::ext_equal]
pub ghost struct StackModel<T> {
    /// The buffered values, oldest first.
    pub items: Seq<T>,
    /// The fixed buffer length; one slot is reserved, so at most
    /// `length - 1` values are buffered at once.
    pub length: nat,
    /// Whether the channel is still open; a closed channel never opens again.
    pub open: bool,
}

impl<T> StackModel<T> {
    /// The buffer holds as many values as it can: `length - 1`, one slot
    /// being reserved to tell full from empty.
    pub open spec fn is_full(self) -> bool {
        self.items.len() == self.length - 1
    }

    /// No value is buffered.
    pub open spec fn is_empty(self) -> bool {
        self.items.len() == 0
    }
}

/// One step of a non-blocking send: refused on a closed channel, refused
/// with `Full` when no slot is free, and otherwise the value is appended.
pub open spec fn model_try_write<T>(m: StackModel<T>, item: T) -> (StackModel<T>, Result<
    (),
    ChannelErrors,
>) {
    if !m.open {
        (m, Err(ChannelErrors::Closed))
    } else if m.is_full() {
        (m, Err(ChannelErrors::Full))
    } else {
        (StackModel { items: m.items.push(item), ..m }, Ok(()))
    }
}

/// One step of a blocking send, taken once the wait for space is over: the
/// channel is then either closed or has a free slot. Finding it still open
/// and full would contradict the wait condition, so that outcome is reported
/// as `Poisoned`, the internal-inconsistency report, rather than acted on.
pub open spec fn model_write<T>(m: StackModel<T>, item: T) -> (StackModel<T>, Result<
    (),
    ChannelErrors,
>) {
    if !m.open {
        (m, Err(ChannelErrors::Closed))
    } else if m.is_full() {
        (m, Err(ChannelErrors::Poisoned))
    } else {
        (StackModel { items: m.items.push(item), ..m }, Ok(()))
    }
}

/// One step of a non-blocking receive: `Closed` on a closed channel,
/// `NoneAvailable` when nothing is buffered, and otherwise the oldest value
/// is removed and returned.
pub open spec fn model_try_read<T>(m: StackModel<T>) -> (StackModel<T>, Result<
    T,
    ChannelErrors,
>) {
    if !m.open {
        (m, Err(ChannelErrors::Closed))
    } else if m.is_empty() {
        (m, Err(ChannelErrors::NoneAvailable))
    } else {
        (StackModel { items: m.items.skip(1), ..m }, Ok(m.items[0]))
    }
}

/// One step of a blocking receive, taken once the wait for data is over: the
/// channel is then either closed or has a buffered value. Finding it still
/// open and empty would contradict the wait condition, so that outcome is
/// reported as `Poisoned` rather than acted on.
pub open spec fn model_read<T>(m: StackModel<T>) -> (StackModel<T>, Result<T, ChannelErrors>) {
    if !m.open {
        (m, Err(ChannelErrors::Closed))
    } else if m.is_empty() {
        (m, Err(ChannelErrors::Poisoned))
    } else {
        (StackModel { items: m.items.skip(1), ..m }, Ok(m.items[0]))
    }
}

/// Closing a channel: the open flag falls, every buffered value is
/// discarded, and the call succeeds whether or not the channel was already
/// closed.
pub open spec fn model_close<T>(m: StackModel<T>) -> (StackModel<T>, Result<(), ChannelErrors>) {
    (StackModel { items: Seq::empty(), open: false, ..m }, Ok(()))
}

} // verus!
