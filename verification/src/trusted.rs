//! What the stream takes on trust: the types and the one call that come from
//! outside this crate. Nothing here is proved.

use futures::task::Task;
use vstd::prelude::*;

verus! {

/// `futures::task::Task`, the handle by which a suspended task is told to poll
/// again. Nothing is known of its inside.
#[verifier::external_type_specification]
#[verifier::external_body]
pub struct ExTask(Task);

/// `std::io::Error`, the error type that closing a stream names and never
/// produces.
#[verifier::external_type_specification]
#[verifier::external_body]
pub struct ExIoError(std::io::Error);

/// Calls `futures::task::Task::notify` on `task`, which asks the executor to
/// poll the task again. It returns nothing, and nothing is claimed of it.
#[verifier::external_body]
pub(crate) fn notify(task: &Task) {
    task.notify();
}

} // verus!
