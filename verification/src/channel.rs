//! The operations on a channel handle: construction, and plain forwarding
//! of send, receive and close into the shared channel state.

use std::sync::Arc;

use vstd::prelude::*;

use crate::application::channel::ApplicationChannel;
use crate::{Channel, ChannelErrors, ChannelType, CreationErrors};

verus! {

impl<T> Channel<T> {
    /// Builds a handle to a fresh channel of the selected backend, with a
    /// buffer of `buffer_size` slots; one slot is reserved to tell full
    /// from empty, so at most `buffer_size - 1` values are buffered at
    /// once. Fails exactly when the capacity is zero or exceeds the
    /// representable index range.
    pub fn new(variant: ChannelType, buffer_size: usize) -> (r: Result<Self, CreationErrors>)
        ensures
            r is Ok <==> 1 <= buffer_size < usize::MAX,
            buffer_size == 0 ==> r matches Err(CreationErrors::ZeroLength),
            buffer_size == usize::MAX ==> r matches Err(CreationErrors::LengthTooLarge),
    {
        match variant {
            ChannelType::Application => {
                let chan = ApplicationChannel::<T>::new(buffer_size)?;
                Ok(Channel::Application(Arc::new(chan)))
            },
        }
    }

    /// Blocking send; forwards to [`ApplicationChannel::write`].
    pub fn write(&self, val: T) -> (r: Result<(), ChannelErrors>)
        ensures
            r matches Err(e) ==> (e == ChannelErrors::Closed || e == ChannelErrors::Poisoned),
    {
        match self {
            Channel::Application(c) => c.write(val),
        }
    }

    /// Non-blocking send; forwards to [`ApplicationChannel::try_write`].
    pub fn try_write(&self, val: T) -> (r: Result<(), ChannelErrors>)
        ensures
            r matches Err(e) ==> (e == ChannelErrors::Full || e == ChannelErrors::Closed
                || e == ChannelErrors::Poisoned),
    {
        match self {
            Channel::Application(c) => c.try_write(val),
        }
    }

    /// Blocking receive; forwards to [`ApplicationChannel::read`].
    pub fn read(&self) -> (r: Result<T, ChannelErrors>)
        ensures
            r matches Err(e) ==> (e == ChannelErrors::Closed || e == ChannelErrors::Poisoned),
    {
        match self {
            Channel::Application(c) => c.read(),
        }
    }

    /// Non-blocking receive; forwards to [`ApplicationChannel::try_read`].
    pub fn try_read(&self) -> (r: Result<T, ChannelErrors>)
        ensures
            r matches Err(e) ==> (e == ChannelErrors::NoneAvailable || e == ChannelErrors::Closed
                || e == ChannelErrors::Poisoned),
    {
        match self {
            Channel::Application(c) => c.try_read(),
        }
    }

    /// Closes the channel for every handle; forwards to
    /// [`ApplicationChannel::close`].
    pub fn close(&self) -> (r: Result<(), ChannelErrors>)
        ensures
            r matches Err(e) ==> e == ChannelErrors::Poisoned,
    {
        match self {
            Channel::Application(c) => c.close(),
        }
    }
}

} // verus!
