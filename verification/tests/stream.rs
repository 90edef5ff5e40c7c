use futures::executor::{self, Notify};
use futures::future;
use futures::task::{self, Task};
use relm_core::{Async, EventStream};
use std::cell::RefCell;
use std::rc::Rc;
use std::sync::atomic::{AtomicUsize, Ordering};
use std::sync::Arc;

type Callback = Box<dyn Fn(&u32)>;

type Numbers = EventStream<u32, Callback>;

type Log = Rc<RefCell<Vec<(usize, u32)>>>;

struct Counter(AtomicUsize);

impl Notify for Counter {
    fn notify(&self, _id: usize) {
        self.0.fetch_add(1, Ordering::SeqCst);
    }
}

fn counter() -> Arc<Counter> {
    Arc::new(Counter(AtomicUsize::new(0)))
}

fn woken(counter: &Arc<Counter>) -> usize {
    counter.0.load(Ordering::SeqCst)
}

fn never() -> Task {
    panic!("a ready stream asked for the wake handle")
}

fn poll_within_task(stream: &mut Numbers, counter: &Arc<Counter>) -> Result<Async<Option<u32>>, ()> {
    let mut spawned = executor::spawn(future::lazy(|| Ok::<_, ()>(stream.poll(task::current))));
    match spawned.poll_future_notify(counter, 0) {
        Ok(futures::Async::Ready(polled)) => polled,
        _ => panic!("the poll did not run to its end"),
    }
}

fn recorder(log: &Log, position: usize) -> Callback {
    let log = log.clone();
    Box::new(move |event: &u32| log.borrow_mut().push((position, *event)))
}

#[test]
fn new_stream_is_empty_unlocked_and_open() {
    let mut stream = Numbers::new();
    assert!(!stream.is_locked());
    assert!(!stream.is_terminated());
    assert_eq!(stream.observer_count(), 0);
    assert_eq!(stream.get_event(), None);
    let idle = counter();
    assert_eq!(poll_within_task(&mut stream, &idle), Ok(Async::NotReady));
    assert_eq!(woken(&idle), 0);
}

#[test]
fn observers_receive_each_message_once_in_order() {
    let log: Log = Rc::new(RefCell::new(Vec::new()));
    let mut stream = Numbers::new();
    stream.observe(recorder(&log, 0));
    stream.observe(recorder(&log, 1));
    stream.emit(10);
    stream.emit(20);
    stream.emit(30);
    assert_eq!(*log.borrow(), vec![(0, 10), (1, 10), (0, 20), (1, 20), (0, 30), (1, 30)]);
}

#[test]
fn observer_registered_later_misses_earlier_messages() {
    let log: Log = Rc::new(RefCell::new(Vec::new()));
    let mut stream = Numbers::new();
    stream.observe(recorder(&log, 0));
    stream.emit(1);
    stream.observe(recorder(&log, 1));
    assert_eq!(stream.observer_count(), 2);
    stream.emit(2);
    assert_eq!(*log.borrow(), vec![(0, 1), (0, 2), (1, 2)]);
}

#[test]
fn locked_emit_calls_nobody_queues_nothing_wakes_nobody() {
    let log: Log = Rc::new(RefCell::new(Vec::new()));
    let mut stream = Numbers::new();
    stream.observe(recorder(&log, 0));
    let waiting = counter();
    assert_eq!(poll_within_task(&mut stream, &waiting), Ok(Async::NotReady));
    let guard = stream.lock();
    assert!(stream.is_locked());
    stream.emit(1);
    stream.emit(2);
    stream.emit(3);
    assert!(log.borrow().is_empty());
    assert_eq!(woken(&waiting), 0);
    assert_eq!(stream.get_event(), None);
    guard.release(&mut stream);
}

#[test]
fn release_restores_emission() {
    let log: Log = Rc::new(RefCell::new(Vec::new()));
    let mut stream = Numbers::new();
    stream.observe(recorder(&log, 0));
    stream.emit(1);
    let guard = stream.lock();
    stream.emit(2);
    guard.release(&mut stream);
    assert!(!stream.is_locked());
    stream.emit(3);
    assert_eq!(*log.borrow(), vec![(0, 1), (0, 3)]);
    assert_eq!(stream.get_event(), Some(1));
    assert_eq!(stream.get_event(), Some(3));
    assert_eq!(stream.get_event(), None);
}

#[test]
fn releasing_one_of_two_locks_unlocks_the_stream() {
    let mut stream = Numbers::new();
    let outer = stream.lock();
    let inner = stream.lock();
    inner.release(&mut stream);
    assert!(!stream.is_locked());
    stream.emit(7);
    assert_eq!(stream.get_event(), Some(7));
    outer.release(&mut stream);
    assert!(!stream.is_locked());
}

#[test]
fn messages_are_pulled_in_emission_order() {
    let mut stream = Numbers::new();
    for number in [5, 3, 9, 3, 1] {
        stream.emit(number);
    }
    assert_eq!(stream.poll(never), Ok(Async::Ready(Some(5))));
    assert_eq!(stream.poll(never), Ok(Async::Ready(Some(3))));
    stream.emit(8);
    assert_eq!(stream.poll(never), Ok(Async::Ready(Some(9))));
    assert_eq!(stream.poll(never), Ok(Async::Ready(Some(3))));
    assert_eq!(stream.poll(never), Ok(Async::Ready(Some(1))));
    assert_eq!(stream.poll(never), Ok(Async::Ready(Some(8))));
    let idle = counter();
    assert_eq!(poll_within_task(&mut stream, &idle), Ok(Async::NotReady));
}

#[test]
fn closing_twice_is_like_closing_once() {
    let mut once = Numbers::new();
    let mut twice = Numbers::new();
    once.emit(4);
    twice.emit(4);
    assert!(once.close().is_ok());
    assert!(twice.close().is_ok());
    assert!(twice.close().is_ok());
    assert_eq!(once.is_terminated(), twice.is_terminated());
    assert_eq!(once.is_locked(), twice.is_locked());
    assert_eq!(once.poll(never), twice.poll(never));
    assert_eq!(once.get_event(), twice.get_event());
    assert_eq!(once.get_event(), twice.get_event());
}

#[test]
fn closed_stream_is_complete_while_messages_are_queued() {
    let mut stream = Numbers::new();
    stream.emit(1);
    assert!(stream.close().is_ok());
    assert!(stream.is_terminated());
    assert_eq!(stream.poll(never), Ok(Async::Ready(None)));
    assert_eq!(stream.get_event(), Some(1));
}

#[test]
fn emit_after_close_still_reaches_observers_and_queue() {
    let log: Log = Rc::new(RefCell::new(Vec::new()));
    let mut stream = Numbers::new();
    stream.observe(recorder(&log, 0));
    assert!(stream.close().is_ok());
    stream.emit(6);
    assert_eq!(*log.borrow(), vec![(0, 6)]);
    assert_eq!(stream.poll(never), Ok(Async::Ready(None)));
    assert_eq!(stream.get_event(), Some(6));
    assert!(stream.is_terminated());
}

#[test]
fn close_wakes_suspended_consumer() {
    let mut stream = Numbers::new();
    let waiting = counter();
    assert_eq!(poll_within_task(&mut stream, &waiting), Ok(Async::NotReady));
    assert!(stream.close().is_ok());
    assert_eq!(woken(&waiting), 1);
    assert_eq!(poll_within_task(&mut stream, &waiting), Ok(Async::Ready(None)));
    assert!(stream.close().is_ok());
    assert_eq!(woken(&waiting), 2);
}

#[test]
fn close_without_consumer_wakes_nobody() {
    let mut stream = Numbers::new();
    assert!(stream.close().is_ok());
    assert!(stream.is_terminated());
}

#[test]
fn wake_handle_stays_until_a_message_is_pulled() {
    let mut stream = Numbers::new();
    let waiting = counter();
    assert_eq!(poll_within_task(&mut stream, &waiting), Ok(Async::NotReady));
    stream.emit(1);
    stream.emit(2);
    assert_eq!(woken(&waiting), 2);
    assert_eq!(stream.poll(never), Ok(Async::Ready(Some(1))));
    stream.emit(3);
    assert_eq!(woken(&waiting), 2);
    assert_eq!(stream.poll(never), Ok(Async::Ready(Some(2))));
    assert_eq!(stream.poll(never), Ok(Async::Ready(Some(3))));
}

#[test]
fn second_consumer_replaces_the_first() {
    let mut stream = Numbers::new();
    let first = counter();
    let second = counter();
    assert_eq!(poll_within_task(&mut stream, &first), Ok(Async::NotReady));
    assert_eq!(poll_within_task(&mut stream, &second), Ok(Async::NotReady));
    stream.emit(1);
    assert_eq!(woken(&first), 0);
    assert_eq!(woken(&second), 1);
}

#[test]
fn begin_emit_wakes_the_consumer_and_counts_the_observers() {
    let log: Log = Rc::new(RefCell::new(Vec::new()));
    let mut stream = Numbers::new();
    stream.observe(recorder(&log, 0));
    stream.observe(recorder(&log, 1));
    let waiting = counter();
    assert_eq!(poll_within_task(&mut stream, &waiting), Ok(Async::NotReady));
    let dispatch = stream.begin_emit().unwrap();
    assert_eq!(dispatch.observers(), 2);
    assert_eq!(woken(&waiting), 1);
    assert!(log.borrow().is_empty());
    assert_eq!(stream.get_event(), None);
    stream.finish_emit(dispatch, 4);
    assert_eq!(woken(&waiting), 1);
    assert_eq!(stream.get_event(), Some(4));
}

#[test]
fn begin_emit_is_refused_while_locked() {
    let mut stream = Numbers::new();
    let waiting = counter();
    assert_eq!(poll_within_task(&mut stream, &waiting), Ok(Async::NotReady));
    let guard = stream.lock();
    assert!(stream.begin_emit().is_none());
    assert_eq!(woken(&waiting), 0);
    guard.release(&mut stream);
    assert!(stream.begin_emit().is_some());
    assert_eq!(woken(&waiting), 1);
}

#[test]
fn get_event_takes_the_oldest_message() {
    let mut stream = Numbers::new();
    assert_eq!(stream.get_event(), None);
    stream.emit(2);
    stream.emit(1);
    assert_eq!(stream.get_event(), Some(2));
    assert_eq!(stream.get_event(), Some(1));
    assert_eq!(stream.get_event(), None);
}

#[test]
fn emission_begun_before_a_lock_is_still_queued() {
    let log: Log = Rc::new(RefCell::new(Vec::new()));
    let mut stream = Numbers::new();
    stream.observe(recorder(&log, 0));
    let dispatch = stream.begin_emit().unwrap();
    let guard = stream.lock();
    stream.finish_emit(dispatch, 5);
    guard.release(&mut stream);
    assert!(log.borrow().is_empty());
    assert_eq!(stream.poll(never), Ok(Async::Ready(Some(5))));
}

#[test]
fn emit_step_by_step_is_emit() {
    let log: Log = Rc::new(RefCell::new(Vec::new()));
    let mut stream = Numbers::new();
    stream.observe(recorder(&log, 0));
    stream.observe(recorder(&log, 1));
    let waiting = counter();
    assert_eq!(poll_within_task(&mut stream, &waiting), Ok(Async::NotReady));
    let event = 11;
    let dispatch = stream.begin_emit().unwrap();
    for index in 0..dispatch.observers() {
        let observer = stream.observer(index);
        observer(&event);
    }
    stream.finish_emit(dispatch, event);
    assert_eq!(woken(&waiting), 1);
    assert_eq!(*log.borrow(), vec![(0, 11), (1, 11)]);
    assert_eq!(stream.poll(never), Ok(Async::Ready(Some(11))));
}
