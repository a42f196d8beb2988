//! The laws the channel obeys, each stated over the transition functions of
//! the `model` module and proved once and for all.
//!
//! The verified operations of `application::channel::ApplicationStack` are
//! specified exactly against those transition functions, so everything
//! proved here holds of any sequence of channel operations — and the mutex
//! serialises the concurrent calls on one channel into exactly such a
//! sequence.

use vstd::prelude::*;

use crate::model::{
    model_close, model_read, model_try_read, model_try_write, model_write, StackModel,
};
use crate::ChannelErrors;

verus! {

/// One channel operation, for stating laws over whole operation sequences.
pub enum ChannelOp<T> {
    /// A blocking send of one value, past its wait.
    Write(T),
    /// A non-blocking send of one value.
    TryWrite(T),
    /// A blocking receive, past its wait.
    Read,
    /// A non-blocking receive.
    TryRead,
    /// Closing the channel.
    Close,
}

/// The state after one operation.
pub open spec fn model_step<T>(m: StackModel<T>, op: ChannelOp<T>) -> StackModel<T> {
    match op {
        ChannelOp::Write(v) => model_write(m, v).0,
        ChannelOp::TryWrite(v) => model_try_write(m, v).0,
        ChannelOp::Read => model_read(m).0,
        ChannelOp::TryRead => model_try_read(m).0,
        ChannelOp::Close => model_close(m).0,
    }
}

/// The values one operation accepts into the buffer: the sent value when
/// the operation is a successful send, nothing otherwise.
pub open spec fn step_sent<T>(m: StackModel<T>, op: ChannelOp<T>) -> Seq<T> {
    match op {
        ChannelOp::Write(v) => if model_write(m, v).1 is Ok {
            seq![v]
        } else {
            Seq::empty()
        },
        ChannelOp::TryWrite(v) => if model_try_write(m, v).1 is Ok {
            seq![v]
        } else {
            Seq::empty()
        },
        _ => Seq::empty(),
    }
}

/// The values one operation hands out of the buffer: the received value
/// when the operation is a successful receive, nothing otherwise.
pub open spec fn step_received<T>(m: StackModel<T>, op: ChannelOp<T>) -> Seq<T> {
    match op {
        ChannelOp::Read => match model_read(m).1 {
            Ok(v) => seq![v],
            Err(_) => Seq::empty(),
        },
        ChannelOp::TryRead => match model_try_read(m).1 {
            Ok(v) => seq![v],
            Err(_) => Seq::empty(),
        },
        _ => Seq::empty(),
    }
}

/// The state after a whole sequence of operations.
pub open spec fn run_state<T>(m: StackModel<T>, ops: Seq<ChannelOp<T>>) -> StackModel<T>
    decreases ops.len(),
{
    if ops.len() == 0 {
        m
    } else {
        run_state(model_step(m, ops[0]), ops.skip(1))
    }
}

/// Every value a sequence of operations accepts, in acceptance order.
pub open spec fn run_sent<T>(m: StackModel<T>, ops: Seq<ChannelOp<T>>) -> Seq<T>
    decreases ops.len(),
{
    if ops.len() == 0 {
        Seq::empty()
    } else {
        step_sent(m, ops[0]) + run_sent(model_step(m, ops[0]), ops.skip(1))
    }
}

/// Every value a sequence of operations hands out, in delivery order.
pub open spec fn run_received<T>(m: StackModel<T>, ops: Seq<ChannelOp<T>>) -> Seq<T>
    decreases ops.len(),
{
    if ops.len() == 0 {
        Seq::empty()
    } else {
        step_received(m, ops[0]) + run_received(model_step(m, ops[0]), ops.skip(1))
    }
}

/// Whether a sequence of operations contains no close.
pub open spec fn no_close<T>(ops: Seq<ChannelOp<T>>) -> bool {
    forall|i: int| 0 <= i < ops.len() ==> !(#[trigger] ops[i] is Close)
}

/// Sending every value of `vs` in turn by non-blocking sends: the state
/// reached.
pub open spec fn model_send_all<T>(m: StackModel<T>, vs: Seq<T>) -> StackModel<T>
    decreases vs.len(),
{
    if vs.len() == 0 {
        m
    } else {
        model_send_all(model_try_write(m, vs[0]).0, vs.skip(1))
    }
}

/// Whether every one of those sends succeeds.
pub open spec fn model_send_all_ok<T>(m: StackModel<T>, vs: Seq<T>) -> bool
    decreases vs.len(),
{
    if vs.len() == 0 {
        true
    } else {
        model_try_write(m, vs[0]).1 is Ok && model_send_all_ok(model_try_write(m, vs[0]).0, vs.skip(1))
    }
}

/// Receiving `n` values in turn by non-blocking receives: the state
/// reached, and the values received in delivery order.
pub open spec fn model_receive_all<T>(m: StackModel<T>, n: nat) -> (StackModel<T>, Seq<T>)
    decreases n,
{
    if n == 0 {
        (m, Seq::empty())
    } else {
        let first = model_try_read(m);
        let rest = model_receive_all(first.0, (n - 1) as nat);
        (
            rest.0,
            match first.1 {
                Ok(v) => seq![v] + rest.1,
                Err(_) => rest.1,
            },
        )
    }
}

/// While there is room for them, sends are accepted: sending `vs` into an
/// open channel whose free slots can hold them all succeeds throughout and
/// appends `vs`, in order, to the buffered values.
pub proof fn lemma_sends_accepted<T>(m: StackModel<T>, vs: Seq<T>)
    requires
        m.open,
        m.items.len() + vs.len() <= m.length - 1,
    ensures
        model_send_all_ok(m, vs),
        model_send_all(m, vs).items == m.items + vs,
        model_send_all(m, vs).open,
        model_send_all(m, vs).length == m.length,
    decreases vs.len(),
{
    if vs.len() == 0 {
        assert(model_send_all(m, vs).items =~= m.items + vs);
    } else {
        let m1 = model_try_write(m, vs[0]).0;
        lemma_sends_accepted(m1, vs.skip(1));
        assert(m1.items + vs.skip(1) =~= m.items + vs);
    }
}

/// Receives deliver the oldest values first: receiving `n` of the values
/// buffered in an open channel returns exactly the first `n` of them, in
/// order, and leaves the rest buffered.
pub proof fn lemma_receives_in_order<T>(m: StackModel<T>, n: nat)
    requires
        m.open,
        n <= m.items.len(),
    ensures
        model_receive_all(m, n).1 == m.items.take(n as int),
        model_receive_all(m, n).0.items == m.items.skip(n as int),
        model_receive_all(m, n).0.open,
        model_receive_all(m, n).0.length == m.length,
    decreases n,
{
    if n == 0 {
        assert(model_receive_all(m, n).1 =~= m.items.take(n as int));
        assert(model_receive_all(m, n).0.items =~= m.items.skip(n as int));
    } else {
        let m1 = model_try_read(m).0;
        lemma_receives_in_order(m1, (n - 1) as nat);
        assert(seq![m.items[0]] + m.items.skip(1).take(n - 1) =~= m.items.take(n as int));
        assert(m.items.skip(1).skip(n - 1) =~= m.items.skip(n as int));
    }
}

/// FIFO: for any values v1..vn, n at most the usable capacity, sending
/// them into an empty open channel succeeds, and the subsequent receives
/// return exactly v1..vn in that order.
pub proof fn lemma_fifo<T>(m: StackModel<T>, vs: Seq<T>)
    requires
        m.open,
        m.items.len() == 0,
        vs.len() <= m.length - 1,
    ensures
        model_send_all_ok(m, vs),
        model_receive_all(model_send_all(m, vs), vs.len()).1 == vs,
    decreases vs.len(),
{
    lemma_sends_accepted(m, vs);
    let sent = model_send_all(m, vs);
    lemma_receives_in_order(sent, vs.len());
    assert(sent.items.take(vs.len() as int) =~= vs);
}

/// Capacity bound: a channel of length C accepts C - 1 buffered values —
/// one slot is reserved — and the C-th send without an intervening receive
/// is refused with `Full`, leaving the state unchanged.
pub proof fn lemma_capacity_bound<T>(m: StackModel<T>, vs: Seq<T>, extra: T)
    requires
        m.open,
        m.items.len() == 0,
        vs.len() == m.length - 1,
    ensures
        model_send_all_ok(m, vs),
        model_try_write(model_send_all(m, vs), extra).1 == Err::<(), ChannelErrors>(
            ChannelErrors::Full,
        ),
        model_try_write(model_send_all(m, vs), extra).0 == model_send_all(m, vs),
{
    lemma_sends_accepted(m, vs);
}

/// Closing closes: whatever state the channel is in, after a close it is
/// closed and empty, and the close itself succeeded.
pub proof fn lemma_close_closes<T>(m: StackModel<T>)
    ensures
        !model_close(m).0.open,
        model_close(m).0.is_empty(),
        model_close(m).1 is Ok,
{
}

/// Close finality: on a closed channel every send and receive — blocking
/// or not — is refused with `Closed` and changes nothing, and closing
/// again is a no-op success.
pub proof fn lemma_close_finality<T>(m: StackModel<T>, v: T)
    requires
        !m.open,
    ensures
        model_try_write(m, v) == (m, Err::<(), ChannelErrors>(ChannelErrors::Closed)),
        model_write(m, v) == (m, Err::<(), ChannelErrors>(ChannelErrors::Closed)),
        model_try_read(m) == (m, Err::<T, ChannelErrors>(ChannelErrors::Closed)),
        model_read(m) == (m, Err::<T, ChannelErrors>(ChannelErrors::Closed)),
        model_close(m).1 == Ok::<(), ChannelErrors>(()),
        !model_close(m).0.open,
        m.is_empty() ==> model_close(m).0 == m,
{
    if m.is_empty() {
        assert(model_close(m).0.items =~= m.items);
        assert(model_close(m).0 =~= m);
    }
}

/// Wake-on-close, the part that is a matter of state: once a channel is
/// closed neither wait condition holds — a thread woken from a blocking
/// send or receive never parks again — and the step it then takes returns
/// `Closed`. That every parked thread is in fact woken is the business of
/// the condition variables' notify-all calls in `close`.
pub proof fn lemma_close_wakes<T>(m: StackModel<T>, v: T)
    requires
        !m.open,
    ensures
        !(m.open && m.is_full()),
        !(m.open && m.is_empty()),
        model_write(m, v).1 == Err::<(), ChannelErrors>(ChannelErrors::Closed),
        model_read(m).1 == Err::<T, ChannelErrors>(ChannelErrors::Closed),
{
}

/// A closed channel is inert: from a closed state, no operation sends or
/// receives a value, and the state stays closed.
pub proof fn lemma_closed_trace_inert<T>(m: StackModel<T>, ops: Seq<ChannelOp<T>>)
    requires
        !m.open,
    ensures
        !run_state(m, ops).open,
        run_sent(m, ops) == Seq::<T>::empty(),
        run_received(m, ops) == Seq::<T>::empty(),
    decreases ops.len(),
{
    if ops.len() == 0 {
    } else {
        let m1 = model_step(m, ops[0]);
        lemma_closed_trace_inert(m1, ops.skip(1));
        assert(run_sent(m, ops) =~= Seq::<T>::empty());
        assert(run_received(m, ops) =~= Seq::<T>::empty());
    }
}

/// A prefix stays a prefix when the same values are put in front of both
/// sequences.
proof fn lemma_prefix_prepend<T>(c: Seq<T>, a: Seq<T>, b: Seq<T>)
    requires
        a.is_prefix_of(b),
    ensures
        (c + a).is_prefix_of(c + b),
{
    assert((c + a) =~= (c + b).take(c.len() + a.len() as int));
}

/// Conservation: across any sequence of operations, the values received
/// are drawn from what was buffered and then accepted, in order — and
/// while no close intervenes, nothing is lost: what was buffered at the
/// start plus everything accepted is exactly everything received plus what
/// is still buffered.
pub proof fn lemma_conservation<T>(m: StackModel<T>, ops: Seq<ChannelOp<T>>)
    ensures
        run_received(m, ops).is_prefix_of(m.items + run_sent(m, ops)),
        no_close(ops) ==> m.items + run_sent(m, ops) == run_received(m, ops) + run_state(
            m,
            ops,
        ).items,
    decreases ops.len(),
{
    if ops.len() == 0 {
        assert(run_received(m, ops).is_prefix_of(m.items + run_sent(m, ops)));
        assert(m.items + Seq::<T>::empty() =~= Seq::<T>::empty() + m.items);
    } else {
        let op = ops[0];
        let m1 = model_step(m, op);
        let sent0 = step_sent(m, op);
        let recv0 = step_received(m, op);
        lemma_conservation(m1, ops.skip(1));
        match op {
            ChannelOp::Write(..) => {
                lemma_trace_step_send(m, ops, m1, sent0, recv0);
            },
            ChannelOp::TryWrite(..) => {
                lemma_trace_step_send(m, ops, m1, sent0, recv0);
            },
            ChannelOp::Read => {
                lemma_trace_step_receive(m, ops, m1, sent0, recv0);
            },
            ChannelOp::TryRead => {
                lemma_trace_step_receive(m, ops, m1, sent0, recv0);
            },
            ChannelOp::Close => {
                lemma_closed_trace_inert(m1, ops.skip(1));
                assert(run_received(m, ops) =~= Seq::<T>::empty());
                assert(run_received(m, ops).is_prefix_of(m.items + run_sent(m, ops)));
            },
        }
    }
}

/// The inductive step of `lemma_conservation` for a send: the state's
/// buffered values grow by exactly what the step accepted.
proof fn lemma_trace_step_send<T>(
    m: StackModel<T>,
    ops: Seq<ChannelOp<T>>,
    m1: StackModel<T>,
    sent0: Seq<T>,
    recv0: Seq<T>,
)
    requires
        ops.len() > 0,
        m1 == model_step(m, ops[0]),
        sent0 == step_sent(m, ops[0]),
        recv0 == step_received(m, ops[0]),
        ops[0] is Write || ops[0] is TryWrite,
        run_received(m1, ops.skip(1)).is_prefix_of(m1.items + run_sent(m1, ops.skip(1))),
        no_close(ops.skip(1)) ==> m1.items + run_sent(m1, ops.skip(1)) == run_received(
            m1,
            ops.skip(1),
        ) + run_state(m1, ops.skip(1)).items,
    ensures
        run_received(m, ops).is_prefix_of(m.items + run_sent(m, ops)),
        no_close(ops) ==> m.items + run_sent(m, ops) == run_received(m, ops) + run_state(
            m,
            ops,
        ).items,
{
    assert(recv0 == Seq::<T>::empty());
    assert(m1.items =~= m.items + sent0);
    assert(run_received(m, ops) =~= run_received(m1, ops.skip(1)));
    assert(m1.items + run_sent(m1, ops.skip(1)) =~= m.items + run_sent(m, ops));
    if no_close(ops) {
        assert(no_close(ops.skip(1))) by {
            assert forall|i: int| 0 <= i < ops.skip(1).len() implies !(#[trigger] ops.skip(
                1,
            )[i] is Close) by {
                assert(ops.skip(1)[i] == ops[i + 1]);
            }
        }
        assert(run_received(m, ops) + run_state(m, ops).items =~= run_received(m1, ops.skip(1))
            + run_state(m1, ops.skip(1)).items);
    }
}

/// The inductive step of `lemma_conservation` for a receive: the step
/// hands out exactly the oldest buffered value.
proof fn lemma_trace_step_receive<T>(
    m: StackModel<T>,
    ops: Seq<ChannelOp<T>>,
    m1: StackModel<T>,
    sent0: Seq<T>,
    recv0: Seq<T>,
)
    requires
        ops.len() > 0,
        m1 == model_step(m, ops[0]),
        sent0 == step_sent(m, ops[0]),
        recv0 == step_received(m, ops[0]),
        ops[0] is Read || ops[0] is TryRead,
        run_received(m1, ops.skip(1)).is_prefix_of(m1.items + run_sent(m1, ops.skip(1))),
        no_close(ops.skip(1)) ==> m1.items + run_sent(m1, ops.skip(1)) == run_received(
            m1,
            ops.skip(1),
        ) + run_state(m1, ops.skip(1)).items,
    ensures
        run_received(m, ops).is_prefix_of(m.items + run_sent(m, ops)),
        no_close(ops) ==> m.items + run_sent(m, ops) == run_received(m, ops) + run_state(
            m,
            ops,
        ).items,
{
    assert(sent0 == Seq::<T>::empty());
    assert(m.items =~= recv0 + m1.items);
    assert(run_sent(m, ops) =~= run_sent(m1, ops.skip(1)));
    lemma_prefix_prepend(recv0, run_received(m1, ops.skip(1)), m1.items + run_sent(m1, ops.skip(1)));
    assert(recv0 + (m1.items + run_sent(m1, ops.skip(1))) =~= m.items + run_sent(m, ops));
    assert(run_received(m, ops) =~= recv0 + run_received(m1, ops.skip(1)));
    if no_close(ops) {
        assert(no_close(ops.skip(1))) by {
            assert forall|i: int| 0 <= i < ops.skip(1).len() implies !(#[trigger] ops.skip(
                1,
            )[i] is Close) by {
                assert(ops.skip(1)[i] == ops[i + 1]);
            }
        }
        assert(m.items + run_sent(m, ops) =~= recv0 + (m1.items + run_sent(m1, ops.skip(1))));
        assert(run_received(m, ops) + run_state(m, ops).items =~= recv0 + (run_received(
            m1,
            ops.skip(1),
        ) + run_state(m1, ops.skip(1)).items));
    }
}

/// No loss, no duplication: starting from an empty channel, across any
/// sequence of operations the received values are exactly the first
/// accepted values, in order — every received value was accepted once,
/// none is delivered twice, and none overtakes another. While no close
/// intervenes every accepted value is either delivered or still buffered.
pub proof fn lemma_no_loss_no_duplication<T>(m: StackModel<T>, ops: Seq<ChannelOp<T>>)
    requires
        m.items.len() == 0,
    ensures
        run_received(m, ops).is_prefix_of(run_sent(m, ops)),
        no_close(ops) ==> run_sent(m, ops) == run_received(m, ops) + run_state(m, ops).items,
{
    lemma_conservation(m, ops);
    assert(m.items + run_sent(m, ops) =~= run_sent(m, ops));
}

} // verus!
