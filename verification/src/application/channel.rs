//! The in-memory channel: a verified ring buffer, and the thread-safe
//! channel built around it.
//!
//! [`ApplicationStack`] is the shared state proper — buffer, cursors and
//! open flag — and is verified against the transition functions of the
//! `model` module.

use std::sync::{Condvar, Mutex, MutexGuard};

use vstd::arithmetic::div_mod::{lemma_mod_self_0, lemma_small_mod};
use vstd::prelude::*;

use crate::model::StackModel;
use crate::sync::{condvar_new, notify_all, notify_one};
use crate::ChannelErrors;
use crate::CreationErrors;

verus! {

/// The shared state of one channel: a ring buffer of `length` slots, the
/// two cursors that wrap around it, and the open flag.
///
/// One slot is reserved to tell a full buffer from an empty one: the buffer
/// is empty when the cursors are equal and full when advancing the write
/// cursor would land on the read cursor, so at most `length - 1` values are
/// buffered at once.
pub struct ApplicationStack<T> {
    /// The slots; every slot in the live range between the read cursor
    /// (inclusive) and the write cursor (exclusive), cyclically, holds a
    /// value, and every other slot is empty.
    pub buffer: Vec<Option<T>>,
    /// The fixed number of slots, set once at construction.
    pub length: usize,
    /// The slot the next read takes its value from.
    pub read_offset: usize,
    /// The slot the next write stores its value in.
    pub write_offset: usize,
    /// Whether the channel is still open; cleared once, never set again.
    pub open: bool,
}

impl<T> ApplicationStack<T> {
    /// How many values are buffered: the cyclic distance from the read
    /// cursor to the write cursor.
    pub open spec fn pending(&self) -> int {
        if self.read_offset <= self.write_offset {
            self.write_offset - self.read_offset
        } else {
            self.length - self.read_offset + self.write_offset
        }
    }

    /// The slot that holds the `i`-th buffered value: `i` slots past the
    /// read cursor, cyclically.
    pub open spec fn slot_index(&self, i: int) -> int {
        if self.read_offset + i < self.length {
            self.read_offset + i
        } else {
            self.read_offset + i - self.length
        }
    }

    /// Whether slot `i` lies in the live range: at or past the read cursor
    /// and strictly before the write cursor, cyclically.
    pub open spec fn in_live(&self, i: int) -> bool {
        if self.read_offset <= self.write_offset {
            self.read_offset <= i < self.write_offset
        } else {
            i >= self.read_offset || i < self.write_offset
        }
    }

    /// Well-formedness: the buffer has exactly `length` slots, both cursors
    /// are in range, exactly the live slots hold values, and a closed
    /// buffer is empty.
    pub open spec fn wf(&self) -> bool {
        &&& self.buffer@.len() == self.length
        &&& 1 <= self.length < usize::MAX
        &&& self.read_offset < self.length
        &&& self.write_offset < self.length
        &&& forall|i: int|
            0 <= i < self.length ==> (#[trigger] self.buffer@[i] is Some <==> self.in_live(i))
        &&& !self.open ==> self.read_offset == self.write_offset
    }
}

impl<T> View for ApplicationStack<T> {
    type V = StackModel<T>;

    open spec fn view(&self) -> StackModel<T> {
        StackModel {
            items: Seq::new(self.pending() as nat, |i: int| self.buffer@[self.slot_index(i)]->0),
            length: self.length as nat,
            open: self.open,
        }
    }
}

/// `x % n` for `x` no larger than `n` wraps exactly once at `n`.
proof fn lemma_mod_at_most_once(x: int, n: int)
    requires
        0 < n,
        0 <= x <= n,
    ensures
        x % n == if x == n {
            0int
        } else {
            x
        },
{
    if x == n {
        lemma_mod_self_0(n);
    } else {
        lemma_small_mod(x as nat, n as nat);
    }
}

impl<T> ApplicationStack<T> {
    /// Builds an open, empty ring buffer of `length` slots.
    pub fn new(length: usize) -> (r: ApplicationStack<T>)
        requires
            1 <= length < usize::MAX,
        ensures
            r.wf(),
            r@.length == length,
            r@.open,
            r@.items == Seq::<T>::empty(),
    {
        let mut buffer: Vec<Option<T>> = Vec::new();
        let mut i: usize = 0;
        while i < length
            invariant
                i == buffer@.len(),
                i <= length,
                forall|j: int| 0 <= j < i ==> #[trigger] buffer@[j] is None,
            decreases length - i,
        {
            buffer.push(None);
            i = i + 1;
        }
        let stack = ApplicationStack { buffer, length, read_offset: 0, write_offset: 0, open: true };
        proof {
            assert(stack@.items =~= Seq::<T>::empty());
        }
        stack
    }

    /// Whether the buffer is full: one free slot is reserved, so this holds
    /// once `length - 1` values are buffered.
    pub fn is_full(&self) -> (r: bool)
        requires
            self.wf(),
        ensures
            r == self@.is_full(),
    {
        proof {
            lemma_mod_at_most_once(self.write_offset + 1, self.length as int);
        }
        self.read_offset == (self.write_offset + 1) % self.length
    }

    /// Stores `item` in the slot under the write cursor and advances the
    /// cursor, appending the value to the buffered sequence.
    pub fn write(&mut self, item: T)
        requires
            old(self).wf(),
            old(self).open,
            !old(self)@.is_full(),
        ensures
            final(self).wf(),
            final(self)@.open,
            final(self)@.length == old(self)@.length,
            final(self)@.items == old(self)@.items.push(item),
    {
        let offset = self.write_offset;
        self.buffer[offset] = Some(item);
        proof {
            lemma_mod_at_most_once(self.write_offset + 1, self.length as int);
        }
        self.write_offset = (self.write_offset + 1) % self.length;
        proof {
            let prev = old(self);
            assert forall|i: int| 0 <= i < self.length implies (self.in_live(i) <==> (
            prev.in_live(i) || i == prev.write_offset)) by {}
            assert(self.wf());
            assert(self.pending() == prev.pending() + 1);
            assert(self.slot_index(prev.pending()) == prev.write_offset);
            assert forall|k: int| 0 <= k < prev.pending() implies self.buffer@[self.slot_index(k)]
                == prev.buffer@[prev.slot_index(k)] by {
                assert(prev.in_live(prev.slot_index(k)));
            }
            assert(self@.items =~= prev@.items.push(item));
        }
    }

    /// Takes the value out of the slot under the read cursor — leaving the
    /// slot empty — and advances the cursor, removing the oldest buffered
    /// value.
    pub fn read(&mut self) -> (r: T)
        requires
            old(self).wf(),
            old(self).open,
            !old(self)@.is_empty(),
        ensures
            final(self).wf(),
            final(self)@.open,
            final(self)@.length == old(self)@.length,
            r == old(self)@.items[0],
            final(self)@.items == old(self)@.items.skip(1),
    {
        let offset = self.read_offset;
        proof {
            assert(old(self).in_live(offset as int));
        }
        let taken = self.buffer[offset].take();
        let value = match taken {
            Some(v) => v,
            None => vstd::pervasive::unreached(),
        };
        proof {
            lemma_mod_at_most_once(self.read_offset + 1, self.length as int);
        }
        self.read_offset = (self.read_offset + 1) % self.length;
        proof {
            let prev = old(self);
            assert forall|i: int| 0 <= i < self.length implies (self.in_live(i) <==> (
            prev.in_live(i) && i != prev.read_offset)) by {}
            assert(self.wf());
            assert(self.pending() == prev.pending() - 1);
            assert(value == prev@.items[0]);
            assert forall|k: int| 0 <= k < self.pending() implies self.buffer@[self.slot_index(k)]
                == prev.buffer@[prev.slot_index(k + 1)] by {
                assert(prev.in_live(prev.slot_index(k + 1)));
            }
            assert(self@.items =~= prev@.items.skip(1));
        }
        value
    }

    /// Whether no value is buffered: the cursors coincide.
    pub fn is_empty(&self) -> (r: bool)
        requires
            self.wf(),
        ensures
            r == self@.is_empty(),
    {
        self.read_offset == self.write_offset
    }

    /// Closes the buffer: clears the open flag, discards every buffered
    /// value, and resets both cursors. Closing an already-closed buffer is
    /// a no-op.
    pub fn close(&mut self)
        requires
            old(self).wf(),
        ensures
            final(self).wf(),
            final(self)@ == crate::model::model_close(old(self)@).0,
    {
        self.open = false;
        let mut i: usize = 0;
        while i < self.length
            invariant
                self.buffer@.len() == self.length,
                i <= self.length,
                !self.open,
                self.length == old(self).length,
                forall|j: int| 0 <= j < i ==> #[trigger] self.buffer@[j] is None,
            decreases self.length - i,
        {
            self.buffer[i] = None;
            i = i + 1;
        }
        self.read_offset = 0;
        self.write_offset = 0;
        proof {
            assert(self@.items =~= Seq::<T>::empty());
            assert(self@ =~= crate::model::model_close(old(self)@).0);
        }
    }

    /// One step of a non-blocking send, exactly as `model_try_write` states
    /// it: `Closed` on a closed channel, `Full` when no slot is free, and
    /// otherwise the value is appended.
    pub fn try_write(&mut self, item: T) -> (r: Result<(), ChannelErrors>)
        requires
            old(self).wf(),
        ensures
            final(self).wf(),
            final(self)@ == crate::model::model_try_write(old(self)@, item).0,
            r == crate::model::model_try_write(old(self)@, item).1,
    {
        if !self.open {
            return Err(ChannelErrors::Closed);
        }
        if self.is_full() {
            return Err(ChannelErrors::Full);
        }
        self.write(item);
        proof {
            assert(self@ =~= crate::model::model_try_write(old(self)@, item).0);
        }
        Ok(())
    }

    /// One step of a non-blocking receive, exactly as `model_try_read`
    /// states it: `Closed` on a closed channel — checked first —
    /// `NoneAvailable` when nothing is buffered, and otherwise the oldest
    /// value is removed and returned.
    pub fn try_read(&mut self) -> (r: Result<T, ChannelErrors>)
        requires
            old(self).wf(),
        ensures
            final(self).wf(),
            final(self)@ == crate::model::model_try_read(old(self)@).0,
            r == crate::model::model_try_read(old(self)@).1,
    {
        if !self.open {
            return Err(ChannelErrors::Closed);
        }
        if self.is_empty() {
            return Err(ChannelErrors::NoneAvailable);
        }
        let value = self.read();
        proof {
            assert(self@ =~= crate::model::model_try_read(old(self)@).0);
        }
        Ok(value)
    }

    /// The step a blocking send takes once its wait for space is over,
    /// exactly as `model_write` states it. A buffer still open and full
    /// here would contradict the wait condition, so that state is reported
    /// as `Poisoned` — the internal-inconsistency report — instead of being
    /// acted on.
    pub fn checked_write(&mut self, item: T) -> (r: Result<(), ChannelErrors>)
        requires
            old(self).wf(),
        ensures
            final(self).wf(),
            final(self)@ == crate::model::model_write(old(self)@, item).0,
            r == crate::model::model_write(old(self)@, item).1,
    {
        if !self.open {
            return Err(ChannelErrors::Closed);
        }
        if self.is_full() {
            return Err(ChannelErrors::Poisoned);
        }
        self.write(item);
        proof {
            assert(self@ =~= crate::model::model_write(old(self)@, item).0);
        }
        Ok(())
    }

    /// The step a blocking receive takes once its wait for data is over,
    /// exactly as `model_read` states it. A buffer still open and empty
    /// here would contradict the wait condition, so that state is reported
    /// as `Poisoned` instead of being acted on.
    pub fn checked_read(&mut self) -> (r: Result<T, ChannelErrors>)
        requires
            old(self).wf(),
        ensures
            final(self).wf(),
            final(self)@ == crate::model::model_read(old(self)@).0,
            r == crate::model::model_read(old(self)@).1,
    {
        if !self.open {
            return Err(ChannelErrors::Closed);
        }
        if self.is_empty() {
            return Err(ChannelErrors::Poisoned);
        }
        let value = self.read();
        proof {
            assert(self@ =~= crate::model::model_read(old(self)@).0);
        }
        Ok(value)
    }

    /// The wait condition of a blocking send: the thread keeps waiting
    /// while the channel is open and the buffer is full.
    pub fn space_wait_needed(&self) -> (r: bool)
        requires
            self.wf(),
        ensures
            r == (self@.open && self@.is_full()),
    {
        let full = self.is_full();
        self.open && full
    }

    /// The wait condition of a blocking receive: the thread keeps waiting
    /// while the channel is open and the buffer is empty.
    pub fn data_wait_needed(&self) -> (r: bool)
        requires
            self.wf(),
        ensures
            r == (self@.open && self@.is_empty()),
    {
        let empty = self.is_empty();
        self.open && empty
    }
}


/// The thread-safe channel: the shared stack under one mutex, and the two
/// condition variables that threads blocked for data or for space wait on.
///
/// Every decision — whether to refuse, wait, store or take a value — is
/// made by the verified [`ApplicationStack`] operations; the mutex and the
/// condition variables are reached only through the trusted wrappers
/// declared beside this type.
#[verifier::reject_recursive_types(T)]
pub struct ApplicationChannel<T> {
    available: Mutex<ApplicationStack<T>>,
    read_cvar: Condvar,
    write_cvar: Condvar,
}

/// Relies on std::sync::Mutex::new: builds the mutex that guards the
/// shared stack. Requiring a well-formed stack here closes the lock
/// invariant that `stack_of` states: the stack starts well-formed, and
/// every verified operation preserves well-formedness.
#[verifier::external_body]
fn stack_mutex_new<T>(stack: ApplicationStack<T>) -> Mutex<ApplicationStack<T>>
    requires
        stack.wf(),
{
    Mutex::new(stack)
}

/// Relies on the std::sync::MutexGuard deref: the guard hands out the
/// stack it protects. The contract is the lock invariant: every stack ever
/// stored under the mutex is well-formed — it starts so in
/// `stack_mutex_new`, and every verified mutation preserves it.
#[verifier::external_body]
fn stack_of<'a, 'b, T>(guard: &'b mut MutexGuard<'a, ApplicationStack<T>>) -> (stack: &'b mut
    ApplicationStack<T>)
    ensures
        stack.wf(),
{
    &mut **guard
}

/// Relies on std::sync::Condvar::wait_while: atomically releases the mutex
/// and parks the thread, reacquiring the mutex on wake and parking again —
/// spurious wakes included — while the verified wait condition
/// `space_wait_needed` holds, so it returns once the channel is closed or a
/// slot is free. An error reports a lock poisoned by a thread that
/// terminated abnormally while holding it.
#[verifier::external_body]
fn wait_for_space<'a, T>(
    cvar: &Condvar,
    guard: MutexGuard<'a, ApplicationStack<T>>,
) -> (r: Result<MutexGuard<'a, ApplicationStack<T>>, ChannelErrors>)
    ensures
        r matches Err(e) ==> e == ChannelErrors::Poisoned,
{
    match cvar.wait_while(guard, |stack: &mut ApplicationStack<T>| stack.space_wait_needed()) {
        Ok(v) => Ok(v),
        Err(_) => Err(ChannelErrors::Poisoned),
    }
}

/// Relies on std::sync::Condvar::wait_while, as `wait_for_space` does, with
/// the verified wait condition `data_wait_needed`: it returns once the
/// channel is closed or a value is buffered.
#[verifier::external_body]
fn wait_for_data<'a, T>(
    cvar: &Condvar,
    guard: MutexGuard<'a, ApplicationStack<T>>,
) -> (r: Result<MutexGuard<'a, ApplicationStack<T>>, ChannelErrors>)
    ensures
        r matches Err(e) ==> e == ChannelErrors::Poisoned,
{
    match cvar.wait_while(guard, |stack: &mut ApplicationStack<T>| stack.data_wait_needed()) {
        Ok(v) => Ok(v),
        Err(_) => Err(ChannelErrors::Poisoned),
    }
}

impl<T> ApplicationChannel<T> {
    /// Relies on std::sync::Mutex::lock: blocks until the lock is free and
    /// returns the guard; an error reports that a prior holder terminated
    /// abnormally while holding the lock, which every operation reports as
    /// `Poisoned` and never as any other outcome.
    #[verifier::external_body]
    fn acquire_stack_lock<'a>(&'a self) -> (r: Result<
        MutexGuard<'a, ApplicationStack<T>>,
        ChannelErrors,
    >)
        ensures
            r matches Err(e) ==> e == ChannelErrors::Poisoned,
    {
        let lock = &self.available;
        match lock.lock() {
            Ok(v) => Ok(v),
            Err(_) => Err(ChannelErrors::Poisoned),
        }
    }

    /// Builds a channel of `length` slots; one slot is reserved to tell
    /// full from empty, so at most `length - 1` values are buffered at
    /// once. Fails exactly when the capacity is zero or exceeds the
    /// representable index range.
    pub fn new(length: usize) -> (r: Result<ApplicationChannel<T>, CreationErrors>)
        ensures
            r is Ok <==> 1 <= length < usize::MAX,
            length == 0 ==> r matches Err(CreationErrors::ZeroLength),
            length == usize::MAX ==> r matches Err(CreationErrors::LengthTooLarge),
    {
        if length == 0 {
            return Err(CreationErrors::ZeroLength);
        }
        if length == usize::MAX {
            return Err(CreationErrors::LengthTooLarge);
        }
        let stack = ApplicationStack::new(length);
        Ok(
            ApplicationChannel {
                available: stack_mutex_new(stack),
                read_cvar: condvar_new(),
                write_cvar: condvar_new(),
            },
        )
    }

    /// Blocking send: waits while the channel is open and the buffer is
    /// full, then stores `item` and wakes one thread waiting for data.
    /// Returns `Ok` once the value is durably buffered — not once a
    /// consumer has taken it — `Closed` if the channel is or becomes
    /// closed, and `Poisoned` only for a poisoned lock or an inconsistent
    /// state. The buffered values themselves are shared mutable state
    /// under the mutex; what each step does to them is stated on the
    /// [`ApplicationStack`] operations this forwards to.
    pub fn write(&self, item: T) -> (r: Result<(), ChannelErrors>)
        ensures
            r matches Err(e) ==> (e == ChannelErrors::Closed || e == ChannelErrors::Poisoned),
    {
        let guard = self.acquire_stack_lock()?;
        let mut guard = wait_for_space(&self.write_cvar, guard)?;
        let stack = stack_of(&mut guard);
        let result = stack.checked_write(item);
        match result {
            Ok(_) => {
                notify_one(&self.read_cvar);
                Ok(())
            },
            Err(e) => Err(e),
        }
    }

    /// Non-blocking send: never waits. Returns `Closed` on a closed
    /// channel, `Full` when no slot is free, and otherwise stores `item`
    /// and wakes one thread waiting for data.
    pub fn try_write(&self, item: T) -> (r: Result<(), ChannelErrors>)
        ensures
            r matches Err(e) ==> (e == ChannelErrors::Full || e == ChannelErrors::Closed
                || e == ChannelErrors::Poisoned),
    {
        let mut guard = self.acquire_stack_lock()?;
        let stack = stack_of(&mut guard);
        let result = stack.try_write(item);
        match result {
            Ok(_) => {
                notify_one(&self.read_cvar);
                Ok(())
            },
            Err(e) => Err(e),
        }
    }

    /// Blocking receive: waits while the channel is open and the buffer is
    /// empty, then takes the oldest value and wakes one thread waiting for
    /// space. Returns `Closed` if the channel is or becomes closed, and
    /// `Poisoned` only for a poisoned lock or an inconsistent state.
    pub fn read(&self) -> (r: Result<T, ChannelErrors>)
        ensures
            r matches Err(e) ==> (e == ChannelErrors::Closed || e == ChannelErrors::Poisoned),
    {
        let guard = self.acquire_stack_lock()?;
        let mut guard = wait_for_data(&self.read_cvar, guard)?;
        let stack = stack_of(&mut guard);
        let result = stack.checked_read();
        match result {
            Ok(value) => {
                notify_one(&self.write_cvar);
                Ok(value)
            },
            Err(e) => Err(e),
        }
    }

    /// Non-blocking receive: never waits. Returns `Closed` on a closed
    /// channel — closed is checked first — `NoneAvailable` when nothing is
    /// buffered, and otherwise takes the oldest value and wakes one thread
    /// waiting for space.
    pub fn try_read(&self) -> (r: Result<T, ChannelErrors>)
        ensures
            r matches Err(e) ==> (e == ChannelErrors::NoneAvailable || e == ChannelErrors::Closed
                || e == ChannelErrors::Poisoned),
    {
        let mut guard = self.acquire_stack_lock()?;
        let stack = stack_of(&mut guard);
        let result = stack.try_read();
        match result {
            Ok(value) => {
                notify_one(&self.write_cvar);
                Ok(value)
            },
            Err(e) => Err(e),
        }
    }

    /// Closes the channel for every handle: discards all buffered values,
    /// and wakes every thread waiting on either condition so each returns
    /// `Closed`. Closing an already-closed channel is a no-op success; the
    /// only error is a poisoned lock.
    pub fn close(&self) -> (r: Result<(), ChannelErrors>)
        ensures
            r matches Err(e) ==> e == ChannelErrors::Poisoned,
    {
        let mut guard = self.acquire_stack_lock()?;
        let stack = stack_of(&mut guard);
        stack.close();
        notify_all(&self.read_cvar);
        notify_all(&self.write_cvar);
        Ok(())
    }
}

} // verus!
