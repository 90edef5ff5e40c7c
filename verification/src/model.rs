//! The mathematical picture of an event stream and of its operations.

use futures::task::Task;
use vstd::prelude::*;

verus! {

/// What one poll of the consumer reports.
#[derive(Debug, PartialEq, Eq)]
pub enum Async<T> {
    /// A value is there now.
    Ready(T),
    /// Nothing is there yet; the caller is woken when that may have changed.
    NotReady,
}

/// One thing a stream did to its surroundings.
pub enum Effect<MSG> {
    /// The stored wake handle was notified.
    Woke(Task),
    /// The observer at position `observer`, in order of registration, was
    /// called with `message`.
    Delivered { observer: int, message: MSG },
}

/// The state of a stream, together with everything it has done so far.
pub struct State<MSG, OBS> {
    /// The pending messages, oldest first.
    pub queue: Seq<MSG>,
    /// While set, emitting does nothing.
    pub locked: bool,
    /// The observers, in order of registration.
    pub observers: Seq<OBS>,
    /// The wake handle of the suspended consumer, if one is stored.
    pub task: Option<Task>,
    /// Set by closing, and never cleared.
    pub terminated: bool,
    /// The wake-ups and deliveries made so far, oldest first.
    pub effects: Seq<Effect<MSG>>,
}

impl<MSG, OBS> State<MSG, OBS> {
    /// A new stream: nothing queued, unlocked, unobserved, open, nothing done.
    pub open spec fn fresh() -> Self {
        State {
            queue: Seq::empty(),
            locked: false,
            observers: Seq::empty(),
            task: None,
            terminated: false,
            effects: Seq::empty(),
        }
    }

    /// The wake-up of the stored handle: one effect if a handle is stored,
    /// none otherwise.
    pub open spec fn wake_up(self) -> Seq<Effect<MSG>> {
        match self.task {
            Some(task) => seq![Effect::Woke(task)],
            None => Seq::empty(),
        }
    }

    /// After the stored handle, if any, was notified.
    pub open spec fn woken(self) -> Self {
        State { effects: self.effects + self.wake_up(), ..self }
    }

    /// After the first `count` observers were called with `message`, first to
    /// last.
    pub open spec fn delivered(self, count: nat, message: MSG) -> Self {
        State { effects: self.effects + deliveries(count, message), ..self }
    }

    /// After `message` was appended to the queue.
    pub open spec fn enqueued(self, message: MSG) -> Self {
        State { queue: self.queue.push(message), ..self }
    }

    /// After `message` was emitted. A locked stream is left as it is. An
    /// unlocked one wakes the suspended consumer, calls every observer in
    /// order, and only then queues the message.
    pub open spec fn emit(self, message: MSG) -> Self {
        if self.locked {
            self
        } else {
            State {
                queue: self.queue.push(message),
                effects: self.effects + self.wake_up() + deliveries(self.observers.len(), message),
                ..self
            }
        }
    }

    /// After each of `messages` was emitted, first to last.
    pub open spec fn emit_all(self, messages: Seq<MSG>) -> Self
        decreases messages.len(),
    {
        if messages.len() == 0 {
            self
        } else {
            self.emit_all(messages.drop_last()).emit(messages.last())
        }
    }

    /// After `callback` was registered behind the observers already there.
    pub open spec fn observe(self, callback: OBS) -> Self {
        State { observers: self.observers.push(callback), ..self }
    }

    /// After a lock was taken.
    pub open spec fn lock(self) -> Self {
        State { locked: true, ..self }
    }

    /// After a lock was released. No count of locks is kept: one release
    /// unlocks the stream however many locks were taken.
    pub open spec fn unlock(self) -> Self {
        State { locked: false, ..self }
    }

    /// After the stream was closed: terminated, and the suspended consumer
    /// woken so that it learns of it.
    pub open spec fn close(self) -> Self {
        State { terminated: true, effects: self.effects + self.wake_up(), ..self }
    }

    /// What a poll reports in this state. A terminated stream is complete
    /// whatever is still queued; an open one hands out its oldest message, or
    /// is not ready when it has none.
    pub open spec fn poll_result(self) -> Async<Option<MSG>> {
        if self.terminated {
            Async::Ready(None)
        } else if self.queue.len() > 0 {
            Async::Ready(Some(self.queue.first()))
        } else {
            Async::NotReady
        }
    }

    /// After a poll that found the stream ready. A terminated stream is left
    /// as it is; an open one gives up its oldest message and forgets the
    /// stored wake handle.
    pub open spec fn pulled(self) -> Self {
        if self.terminated {
            self
        } else {
            State { queue: self.queue.drop_first(), task: None, ..self }
        }
    }

    /// After a poll that found the stream not ready: the wake handle of the
    /// polling task is stored in place of any handle stored before.
    pub open spec fn parked(self, current: Task) -> Self {
        State { task: Some(current), ..self }
    }

    /// After a poll by a task whose wake handle is `current`.
    pub open spec fn poll(self, current: Task) -> Self {
        match self.poll_result() {
            Async::Ready(_) => self.pulled(),
            Async::NotReady => self.parked(current),
        }
    }

    /// After one poll by each of `tasks`, in turn.
    pub open spec fn poll_all(self, tasks: Seq<Task>) -> Self
        decreases tasks.len(),
    {
        if tasks.len() == 0 {
            self
        } else {
            self.poll_all(tasks.drop_last()).poll(tasks.last())
        }
    }

    /// What those polls report, in turn.
    pub open spec fn poll_results(self, tasks: Seq<Task>) -> Seq<Async<Option<MSG>>>
        decreases tasks.len(),
    {
        if tasks.len() == 0 {
            Seq::empty()
        } else {
            self.poll_results(tasks.drop_last()).push(
                self.poll_all(tasks.drop_last()).poll_result(),
            )
        }
    }

    /// The messages that the observer at position `observer` was called
    /// with, first to last.
    pub open spec fn received(self, observer: int) -> Seq<MSG> {
        received_in(self.effects, observer)
    }
}

/// One delivery of `message` to each of the first `count` observers, in order
/// of registration.
pub open spec fn deliveries<MSG>(count: nat, message: MSG) -> Seq<Effect<MSG>> {
    Seq::new(count, |i: int| Effect::Delivered { observer: i, message })
}

/// The messages delivered to the observer at position `observer` among
/// `effects`, in the order of `effects`.
pub open spec fn received_in<MSG>(effects: Seq<Effect<MSG>>, observer: int) -> Seq<MSG>
    decreases effects.len(),
{
    if effects.len() == 0 {
        Seq::empty()
    } else {
        let earlier = received_in(effects.drop_last(), observer);
        match effects.last() {
            Effect::Delivered { observer: to, message } if to == observer => earlier.push(message),
            _ => earlier,
        }
    }
}

} // verus!
