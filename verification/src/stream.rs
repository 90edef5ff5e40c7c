//! The stream itself.

use crate::model::{deliveries, Async, Effect, State};
use crate::trusted::notify;
use futures::task::Task;
use std::collections::VecDeque;
use std::rc::Rc;
use vstd::prelude::*;

verus! {

/// A lock is used to temporarily stop emitting messages. It is handed out by
/// [`EventStream::lock`] and given back with [`Lock::release`].
#[must_use]
pub struct Lock {
    held: (),
}

/// An emission that has begun: the stream was unlocked, the suspended consumer
/// has been woken, and the observers that were registered at that moment are
/// due to be called. It is handed out by [`EventStream::begin_emit`] and given
/// back with [`EventStream::finish_emit`], which queues the message.
#[must_use]
pub struct Dispatch {
    observers: usize,
}

impl Dispatch {
    /// The number of observers that were registered when the emission began.
    pub closed spec fn count(self) -> nat {
        self.observers as nat
    }

    /// The number of observers that were registered when the emission began.
    /// Observers registered since then are not part of this emission.
    pub fn observers(&self) -> (observers: usize)
        ensures
            observers == self.count(),
    {
        self.observers
    }
}

/// A stream of messages, for communication between a widget and its signals
/// and between widgets.
pub struct EventStream<MSG, OBS> {
    events: VecDeque<MSG>,
    locked: bool,
    observers: Vec<Rc<OBS>>,
    task: Option<Task>,
    terminated: bool,
    effects: Ghost<Seq<Effect<MSG>>>,
}

impl<MSG, OBS> View for EventStream<MSG, OBS> {
    type V = State<MSG, OBS>;

    closed spec fn view(&self) -> State<MSG, OBS> {
        State {
            queue: self.events@,
            locked: self.locked,
            observers: Seq::new(self.observers@.len(), |i: int| *self.observers@[i]),
            task: self.task,
            terminated: self.terminated,
            effects: self.effects@,
        }
    }
}

impl<MSG, OBS: Fn(&MSG)> EventStream<MSG, OBS> {
    /// Create a new event stream.
    pub fn new() -> (stream: Self)
        ensures
            stream@ == State::<MSG, OBS>::fresh(),
    {
        let stream = EventStream {
            events: VecDeque::new(),
            locked: false,
            observers: Vec::new(),
            task: None,
            terminated: false,
            effects: Ghost(Seq::empty()),
        };
        assert(stream@.observers =~= Seq::empty());
        stream
    }

    /// Close the event stream, i.e. stop processing messages. A consumer that
    /// is suspended on the stream is woken, so that its next poll finds the
    /// stream complete. Closing never fails.
    pub fn close(&mut self) -> (closed: Result<(), std::io::Error>)
        ensures
            closed is Ok,
            final(self)@ == old(self)@.close(),
    {
        self.terminated = true;
        self.wake();
        Ok(())
    }

    /// Send the `event` message to the observers and to the queue. Nothing
    /// happens while the stream is locked: the message is dropped. Every
    /// observer registered by now has been called with `event`, once and in
    /// order of registration, before the message is queued.
    pub fn emit(&mut self, event: MSG)
        requires
            !old(self)@.locked ==> forall|i: int|
                0 <= i < old(self)@.observers.len() ==> call_requires(
                    #[trigger] old(self)@.observers[i],
                    (&event,),
                ),
        ensures
            final(self)@ == old(self)@.emit(event),
            !old(self)@.locked ==> forall|i: int|
                0 <= i < old(self)@.observers.len() ==> call_ensures(
                    #[trigger] old(self)@.observers[i],
                    (&event,),
                    (),
                ),
    {
        if let Some(dispatch) = self.begin_emit() {
            let ghost woken = self@;
            let len: usize = dispatch.observers();
            let mut i: usize = 0;
            while i < len
                invariant
                    0 <= i <= len,
                    len == woken.observers.len(),
                    woken == old(self)@.woken(),
                    self@ == woken.delivered(i as nat, event),
                    forall|j: int|
                        0 <= j < len ==> call_requires(
                            #[trigger] woken.observers[j],
                            (&event,),
                        ),
                    forall|j: int|
                        0 <= j < i ==> call_ensures(#[trigger] woken.observers[j], (&event,), ()),
                decreases len - i,
            {
                let observer: &OBS = &self.observers[i];
                assert(*observer == woken.observers[i as int]);
                observer(&event);
                proof {
                    self.effects@ = self.effects@.push(
                        Effect::Delivered { observer: i as int, message: event },
                    );
                    assert(self@.effects =~= woken.effects + deliveries((i + 1) as nat, event));
                }
                i += 1;
            }
            self.finish_emit(dispatch, event);
        }
    }

    /// Begin an emission, for a caller that calls the observers itself. A
    /// locked stream refuses, and nothing happens. An unlocked one wakes the
    /// suspended consumer and tells how many observers are registered: those
    /// are to be called, first to last, before the emission is finished.
    pub fn begin_emit(&mut self) -> (dispatch: Option<Dispatch>)
        ensures
            dispatch is None <==> old(self)@.locked,
            old(self)@.locked ==> final(self)@ == old(self)@,
            !old(self)@.locked ==> final(self)@ == old(self)@.woken(),
            dispatch matches Some(begun) ==> begun.count() == old(self)@.observers.len(),
    {
        if self.locked {
            None
        } else {
            self.wake();
            Some(Dispatch { observers: self.observers.len() })
        }
    }

    /// Finish the emission `dispatch` of `event`: the message is appended to
    /// the queue, whether the stream was locked in the meantime or not.
    pub fn finish_emit(&mut self, dispatch: Dispatch, event: MSG)
        ensures
            final(self)@ == old(self)@.enqueued(event),
    {
        self.events.push_back(event);
    }

    /// Take the oldest queued message out of the stream, if there is one.
    pub fn get_event(&mut self) -> (event: Option<MSG>)
        ensures
            event == (if old(self)@.queue.len() > 0 {
                Some(old(self)@.queue.first())
            } else {
                None
            }),
            final(self)@ == (State {
                queue: if old(self)@.queue.len() > 0 {
                    old(self)@.queue.drop_first()
                } else {
                    old(self)@.queue
                },
                ..old(self)@
            }),
    {
        self.events.pop_front()
    }

    /// Lock the stream (don't emit message) until the `Lock` is released.
    pub fn lock(&mut self) -> (guard: Lock)
        ensures
            final(self)@ == old(self)@.lock(),
    {
        self.locked = true;
        Lock { held: () }
    }

    /// Whether the stream has been closed.
    pub fn is_terminated(&self) -> (terminated: bool)
        ensures
            terminated == self@.terminated,
    {
        self.terminated
    }

    /// Whether emitting is switched off at the moment.
    pub fn is_locked(&self) -> (locked: bool)
        ensures
            locked == self@.locked,
    {
        self.locked
    }

    /// Add an observer to the event stream.
    /// This callback will be called every time a message is emitted.
    pub fn observe(&mut self, callback: OBS)
        ensures
            final(self)@ == old(self)@.observe(callback),
    {
        self.observers.push(Rc::new(callback));
        assert(self@.observers =~= old(self)@.observers.push(callback));
    }

    /// The number of observers registered so far.
    pub fn observer_count(&self) -> (count: usize)
        ensures
            count == self@.observers.len(),
    {
        self.observers.len()
    }

    /// The observer at position `index`, in order of registration.
    pub fn observer(&self, index: usize) -> (observer: Rc<OBS>)
        requires
            index < self@.observers.len(),
        ensures
            *observer == self@.observers[index as int],
    {
        self.observers[index].clone()
    }

    /// Notify the wake handle of the suspended consumer, if one is stored.
    /// The handle stays stored.
    fn wake(&mut self)
        ensures
            final(self)@ == old(self)@.woken(),
    {
        if let Some(task) = &self.task {
            notify(task);
            proof {
                self.effects@ = self.effects@.push(Effect::Woke(*task));
            }
        }
        assert(self@.effects =~= old(self)@.woken().effects);
    }

    /// Pull the next message. `current` yields the wake handle of the task
    /// that polls; it is called only when that task has to suspend, which is
    /// when the stream is open and empty. The handle is then stored, and the
    /// task is woken by the next message or by closing. A closed stream is
    /// complete even while messages are queued.
    pub fn poll<CURRENT: FnOnce() -> Task>(&mut self, current: CURRENT) -> (polled: Result<
        Async<Option<MSG>>,
        (),
    >)
        requires
            call_requires(current, ()),
        ensures
            polled == Ok::<Async<Option<MSG>>, ()>(old(self)@.poll_result()),
            match old(self)@.poll_result() {
                Async::Ready(_) => final(self)@ == old(self)@.pulled(),
                Async::NotReady => final(self)@.task matches Some(task) && call_ensures(
                    current,
                    (),
                    task,
                ) && final(self)@ == old(self)@.parked(task),
            },
    {
        if self.is_terminated() {
            Ok(Async::Ready(None))
        } else {
            match self.get_event() {
                Some(event) => {
                    self.task = None;
                    Ok(Async::Ready(Some(event)))
                },
                None => {
                    self.task = Some(current());
                    Ok(Async::NotReady)
                },
            }
        }
    }
}

impl Lock {
    /// Give the lock back: `stream` emits again. No count of locks is kept,
    /// so this unlocks the stream even while another lock on it is held.
    pub fn release<MSG, OBS: Fn(&MSG)>(self, stream: &mut EventStream<MSG, OBS>)
        ensures
            final(stream)@ == old(stream)@.unlock(),
    {
        stream.locked = false;
    }
}

} // verus!
