//! What follows from the transitions of a stream.

use crate::model::{deliveries, received_in, Async, Effect, State};
use futures::task::Task;
use vstd::prelude::*;

verus! {

/// What an observer received among two runs of effects, one after the other,
/// is what it received in the first followed by what it received in the
/// second.
pub proof fn lemma_received_in_concat<MSG>(
    first: Seq<Effect<MSG>>,
    second: Seq<Effect<MSG>>,
    observer: int,
)
    ensures
        received_in(first + second, observer) == received_in(first, observer) + received_in(
            second,
            observer,
        ),
    decreases second.len(),
{
    if second.len() > 0 {
        assert((first + second).drop_last() =~= first + second.drop_last());
        lemma_received_in_concat(first, second.drop_last(), observer);
    }
}

/// One round of deliveries to `count` observers hands `message` once to each
/// observer below `count`, and nothing to any other.
pub proof fn lemma_received_in_deliveries<MSG>(count: nat, message: MSG, observer: int)
    ensures
        received_in(deliveries(count, message), observer) == (if 0 <= observer < count {
            seq![message]
        } else {
            Seq::empty()
        }),
    decreases count,
{
    if count > 0 {
        let before = (count - 1) as nat;
        assert(deliveries(count, message).drop_last() =~= deliveries(before, message));
        lemma_received_in_deliveries(before, message, observer);
    }
}

/// A wake-up delivers nothing to any observer.
pub proof fn lemma_received_in_wake_up<MSG, OBS>(state: State<MSG, OBS>, observer: int)
    ensures
        received_in(state.wake_up(), observer) == Seq::<MSG>::empty(),
{
    let wake_up = state.wake_up();
    if wake_up.len() > 0 {
        assert(received_in(wake_up.drop_last(), observer) == Seq::<MSG>::empty());
    }
}

/// One emission on an unlocked stream reaches every registered observer
/// exactly once, after everything that observer received before, and is then
/// queued behind everything queued before.
pub proof fn lemma_emit_delivers<MSG, OBS>(state: State<MSG, OBS>, message: MSG, observer: int)
    requires
        !state.locked,
    ensures
        state.emit(message).queue == state.queue.push(message),
        0 <= observer < state.observers.len() ==> state.emit(message).received(observer)
            == state.received(observer).push(message),
        !(0 <= observer < state.observers.len()) ==> state.emit(message).received(observer)
            == state.received(observer),
{
    let round = deliveries(state.observers.len(), message);
    lemma_received_in_concat(state.effects + state.wake_up(), round, observer);
    lemma_received_in_concat(state.effects, state.wake_up(), observer);
    lemma_received_in_wake_up(state, observer);
    lemma_received_in_deliveries(state.observers.len(), message, observer);
}

/// An emission on an unlocked stream is its three steps in turn: the
/// suspended consumer is woken, the observers registered by then are called,
/// and the message is queued.
pub proof fn lemma_emit_is_wake_deliver_enqueue<MSG, OBS>(state: State<MSG, OBS>, message: MSG)
    requires
        !state.locked,
    ensures
        state.emit(message) == state.woken().delivered(state.observers.len(), message).enqueued(
            message,
        ),
{
}

/// An observer that is registered while an emission is under way is not
/// called in that emission: the observers are counted when the emission
/// begins. It still receives every later message.
pub proof fn lemma_late_observer_waits_for_the_next_message<MSG, OBS>(
    state: State<MSG, OBS>,
    late: OBS,
    message: MSG,
    next: MSG,
)
    requires
        !state.locked,
    ensures
        ({
            let count = state.observers.len();
            let after = state.woken().observe(late).delivered(count, message).enqueued(message);
            &&& after.received(count as int) == state.received(count as int)
            &&& after.queue == state.queue.push(message)
            &&& after.emit(next).received(count as int) == state.received(count as int).push(next)
        }),
{
    let count = state.observers.len();
    let begun = state.woken().observe(late);
    let after = begun.delivered(count, message).enqueued(message);
    lemma_received_in_wake_up(state, count as int);
    lemma_received_in_concat(state.effects, state.wake_up(), count as int);
    lemma_received_in_deliveries(count, message, count as int);
    lemma_received_in_concat(begun.effects, deliveries(count, message), count as int);
    lemma_emit_delivers(after, next, count as int);
}

/// While a stream is unlocked, its observers receive exactly the emitted
/// messages, in the order of emission and once each, and the same messages
/// are queued in that order. Emitting changes nothing else but the record of
/// what was done.
pub proof fn lemma_emit_all_delivers<MSG, OBS>(state: State<MSG, OBS>, messages: Seq<MSG>)
    requires
        !state.locked,
    ensures
        state.emit_all(messages).queue == state.queue + messages,
        forall|observer: int|
            0 <= observer < state.observers.len() ==> #[trigger] state.emit_all(
                messages,
            ).received(observer) == state.received(observer) + messages,
        forall|observer: int|
            !(0 <= observer < state.observers.len()) ==> #[trigger] state.emit_all(
                messages,
            ).received(observer) == state.received(observer),
        state.emit_all(messages).locked == state.locked,
        state.emit_all(messages).observers == state.observers,
        state.emit_all(messages).task == state.task,
        state.emit_all(messages).terminated == state.terminated,
    decreases messages.len(),
{
    if messages.len() > 0 {
        let earlier = state.emit_all(messages.drop_last());
        lemma_emit_all_delivers(state, messages.drop_last());
        assert forall|observer: int|
            0 <= observer < state.observers.len() implies #[trigger] state.emit_all(
            messages,
        ).received(observer) == state.received(observer) + messages by {
            lemma_emit_delivers(earlier, messages.last(), observer);
        }
        assert forall|observer: int|
            !(0 <= observer < state.observers.len()) implies #[trigger] state.emit_all(
            messages,
        ).received(observer) == state.received(observer) by {
            lemma_emit_delivers(earlier, messages.last(), observer);
        }
    }
}

/// While a stream is locked, emitting does nothing at all: no observer is
/// called, nothing is queued and nobody is woken, however many messages are
/// emitted. This holds right after a lock was taken.
pub proof fn lemma_locked_emit_all_is_dropped<MSG, OBS>(
    state: State<MSG, OBS>,
    messages: Seq<MSG>,
)
    ensures
        state.locked ==> state.emit_all(messages) == state,
        state.lock().emit_all(messages) == state.lock(),
    decreases messages.len(),
{
    if messages.len() > 0 {
        lemma_locked_emit_all_is_dropped(state, messages.drop_last());
    }
}

/// Releasing a lock restores emission: the next message reaches every
/// observer and the queue as if the stream had never been locked, whatever
/// was emitted in between.
pub proof fn lemma_release_restores_emission<MSG, OBS>(
    state: State<MSG, OBS>,
    dropped: Seq<MSG>,
    message: MSG,
)
    ensures
        state.lock().emit_all(dropped).unlock().emit(message) == state.unlock().emit(message),
        state.unlock().emit(message).queue == state.queue.push(message),
        forall|observer: int|
            0 <= observer < state.observers.len() ==> #[trigger] state.unlock().emit(
                message,
            ).received(observer) == state.received(observer).push(message),
{
    lemma_locked_emit_all_is_dropped(state, dropped);
    assert forall|observer: int| 0 <= observer < state.observers.len() implies #[trigger]
        state.unlock().emit(message).received(observer) == state.received(observer).push(
        message,
    ) by {
        lemma_emit_delivers(state.unlock(), message, observer);
    }
}

/// Polling an open stream no more often than it has messages hands out its
/// messages oldest first, one for each poll, and leaves the rest queued.
pub proof fn lemma_poll_all_is_fifo<MSG, OBS>(state: State<MSG, OBS>, tasks: Seq<Task>)
    requires
        !state.terminated,
        tasks.len() <= state.queue.len(),
    ensures
        state.poll_results(tasks) == Seq::new(
            tasks.len(),
            |i: int| Async::Ready(Some(state.queue[i])),
        ),
        state.poll_all(tasks).queue == state.queue.skip(tasks.len() as int),
        !state.poll_all(tasks).terminated,
    decreases tasks.len(),
{
    if tasks.len() > 0 {
        lemma_poll_all_is_fifo(state, tasks.drop_last());
    }
}

/// First in, first out: the messages emitted on an unlocked, open stream are
/// pulled in the order in which they were emitted, behind those that were
/// queued before.
pub proof fn lemma_emitted_messages_are_pulled_in_order<MSG, OBS>(
    state: State<MSG, OBS>,
    messages: Seq<MSG>,
    tasks: Seq<Task>,
)
    requires
        !state.locked,
        !state.terminated,
        tasks.len() <= state.queue.len() + messages.len(),
    ensures
        state.emit_all(messages).poll_results(tasks) == Seq::new(
            tasks.len(),
            |i: int| Async::Ready(Some((state.queue + messages)[i])),
        ),
{
    lemma_emit_all_delivers(state, messages);
    lemma_poll_all_is_fifo(state.emit_all(messages), tasks);
}

/// Closing twice leaves the stream as closing once does. Only the record of
/// what was done can tell the two apart: a consumer that is suspended is
/// woken by each call.
pub proof fn lemma_close_is_idempotent<MSG, OBS>(state: State<MSG, OBS>)
    ensures
        state.close().close() == (State {
            effects: state.close().effects + state.wake_up(),
            ..state.close()
        }),
        state.task is None ==> state.close().close() == state.close(),
        state.close().close().poll_result() == state.close().poll_result(),
{
}

/// Once a stream is closed, it stays closed, and every poll finds it
/// complete and takes nothing from the queue, whatever is queued and
/// whatever is emitted afterwards.
pub proof fn lemma_closed_stream_is_complete<MSG, OBS>(
    state: State<MSG, OBS>,
    later: Seq<MSG>,
    current: Task,
)
    ensures
        state.close().terminated,
        state.close().queue == state.queue,
        state.close().emit_all(later).terminated,
        state.close().emit_all(later).poll_result() == Async::<Option<MSG>>::Ready(None),
        state.close().emit_all(later).poll(current) == state.close().emit_all(later),
    decreases later.len(),
{
    if later.len() > 0 {
        lemma_closed_stream_is_complete(state, later.drop_last(), current);
    }
}

/// A stream that was closed is never open again: no operation clears the
/// flag.
pub proof fn lemma_termination_is_final<MSG, OBS>(
    state: State<MSG, OBS>,
    message: MSG,
    callback: OBS,
    current: Task,
)
    requires
        state.terminated,
    ensures
        state.emit(message).terminated,
        state.observe(callback).terminated,
        state.lock().terminated,
        state.unlock().terminated,
        state.close().terminated,
        state.poll(current).terminated,
{
}

/// Suspend and resume: a poll of an open, empty stream is not ready and
/// stores the wake handle of the polling task. The next emission on the
/// unlocked stream, or closing it, notifies exactly that handle, and the
/// following poll returns the new message, or finds the stream complete.
pub proof fn lemma_suspended_consumer_is_resumed<MSG, OBS>(
    state: State<MSG, OBS>,
    current: Task,
    message: MSG,
)
    requires
        !state.terminated,
        state.queue.len() == 0,
    ensures
        state.poll_result() == Async::<Option<MSG>>::NotReady,
        state.poll(current) == state.parked(current),
        !state.locked ==> state.poll(current).emit(message).poll_result() == Async::Ready(
            Some(message),
        ),
        !state.locked ==> state.poll(current).emit(message).effects == state.effects.push(
            Effect::Woke(current),
        ) + deliveries(state.observers.len(), message),
        state.poll(current).close().poll_result() == Async::<Option<MSG>>::Ready(None),
        state.poll(current).close().effects == state.effects.push(Effect::Woke(current)),
{
}

} // verus!
