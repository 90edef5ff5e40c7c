//! An event stream for message passing between components that live on one
//! thread.
//!
//! Messages pushed into an [`EventStream`] are handed to every registered
//! observer at once and are queued for a single consumer that pulls them one
//! at a time, suspending while the queue is empty. [`State`] is the
//! mathematical picture of a stream; every operation is specified as a
//! transition of that picture, and the `laws` module proves what follows from
//! those transitions.

pub mod laws;
pub mod model;
pub mod stream;
pub mod trusted;

pub use model::{Async, Effect, State};
pub use stream::{Dispatch, EventStream, Lock};
