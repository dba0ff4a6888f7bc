//! The channels between tasks, which are tokio's.
//!
//! A channel is shared with other tasks, so nothing that depends on who else
//! holds an end of it is claimed here: a handle is made, copied or given a
//! message, and what comes back is taken as it comes.

use tokio::sync::{broadcast, mpsc};
use triomphe::Arc;
use vstd::prelude::*;

verus! {

#[verifier::external_type_specification]
#[verifier::external_body]
#[verifier::reject_recursive_types(T)]
pub struct ExBroadcastSender<T>(broadcast::Sender<T>);

#[verifier::external_type_specification]
#[verifier::external_body]
#[verifier::reject_recursive_types(T)]
pub struct ExBroadcastReceiver<T>(broadcast::Receiver<T>);

#[verifier::external_type_specification]
#[verifier::external_body]
#[verifier::reject_recursive_types(T)]
pub struct ExQueueSender<T>(mpsc::Sender<T>);

#[verifier::external_type_specification]
#[verifier::external_body]
#[verifier::reject_recursive_types(T)]
pub struct ExQueueReceiver<T>(mpsc::Receiver<T>);

#[verifier::external_type_specification]
#[verifier::external_body]
#[verifier::reject_recursive_types(T)]
pub struct ExArc<T: ?Sized>(Arc<T>);

/// The largest capacity a broadcast channel can be made with.
pub const MAX_BROADCAST: usize = usize::MAX / 2;

/// The largest capacity a queue can be made with.
pub const MAX_QUEUE: usize = usize::MAX / 8;

/// `broadcast::channel`: a new channel and its first receiver. The call
/// panics on a capacity of zero or above half of `usize::MAX`, which the
/// precondition leaves out.
#[verifier::external_body]
pub(crate) fn broadcast_channel<T: Clone>(capacity: usize) -> (ends: (
    broadcast::Sender<T>,
    broadcast::Receiver<T>,
))
    requires
        0 < capacity <= MAX_BROADCAST,
{
    broadcast::channel(capacity)
}

/// `broadcast::Sender::new`: a new channel that nobody listens to yet. It
/// panics as `broadcast::channel` does.
#[verifier::external_body]
pub(crate) fn broadcast_sender<T: Clone>(capacity: usize) -> (tx: broadcast::Sender<T>)
    requires
        0 < capacity <= MAX_BROADCAST,
{
    broadcast::Sender::new(capacity)
}

/// `broadcast::Sender::subscribe`: a receiver that hears whatever is sent
/// after this call. Like an allocation, it fails only where no more
/// receivers can be counted.
#[verifier::external_body]
pub(crate) fn subscribe<T: Clone>(tx: &broadcast::Sender<T>) -> (rx: broadcast::Receiver<T>) {
    tx.subscribe()
}

/// `broadcast::Sender::send`: hands the value to every receiver there is at
/// the moment and tells how many there are, or tells that there is none. How
/// many there are is up to the other tasks, so nothing is promised of it.
#[verifier::external_body]
pub(crate) fn publish<T: Clone>(tx: &broadcast::Sender<T>, value: T) -> (receivers: Option<usize>) {
    tx.send(value).ok()
}

/// `broadcast::Receiver::resubscribe`: one more receiver of the same channel,
/// which hears whatever is sent from now on. It fails as `subscribe` does.
#[verifier::external_body]
pub(crate) fn resubscribe<T: Clone>(rx: &broadcast::Receiver<T>) -> (copy: broadcast::Receiver<T>) {
    rx.resubscribe()
}

/// `mpsc::channel`: a new bounded queue. The call panics on a buffer of zero
/// or above an eighth of `usize::MAX`, which the precondition leaves out.
#[verifier::external_body]
pub(crate) fn queue<T>(buffer: usize) -> (ends: (mpsc::Sender<T>, mpsc::Receiver<T>))
    requires
        0 < buffer <= MAX_QUEUE,
{
    mpsc::channel(buffer)
}

/// `mpsc::Sender::clone`: one more handle that feeds the same queue.
#[verifier::external_body]
pub(crate) fn another_sender<T>(tx: &mpsc::Sender<T>) -> (copy: mpsc::Sender<T>) {
    tx.clone()
}

} // verus!
