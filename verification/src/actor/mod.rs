//! The decisions of the tasks that serve the connections. Each task waits for
//! something to arrive, asks here what to do about it, and does it.

pub mod game;
pub mod io;
pub mod lobby;

use crate::channel::{broadcast_channel, queue, MAX_BROADCAST, MAX_QUEUE};
use tokio::sync::{broadcast, mpsc};
use vstd::prelude::*;

verus! {

/// One of the many: it hears what the handle broadcasts and answers on a
/// queue that it shares with the others.
#[verifier::reject_recursive_types(In)]
#[verifier::reject_recursive_types(Out)]
pub struct Actor<In, Out> {
    pub broadcast_rx: broadcast::Receiver<In>,
    pub mpsc_tx: mpsc::Sender<Out>,
}

/// Handle to a one-to-many actor: it broadcasts to all of them and reads
/// their answers from one queue.
#[verifier::reject_recursive_types(In)]
#[verifier::reject_recursive_types(Out)]
pub struct Handle<In, Out> {
    pub broadcast_tx: broadcast::Sender<Out>,
    pub mpsc_rx: mpsc::Receiver<In>,
}

/// Create a one-to-many message-passing model: a broadcast channel from the
/// handle to the actors and a queue from the actors to the handle, each with
/// room for the given number of messages.
pub fn create<ActorToHandle, HandleToActor: Clone>(
    handle_to_actor_capacity: usize,
    actor_to_handle_capacity: usize,
) -> (ends: (Actor<HandleToActor, ActorToHandle>, Handle<ActorToHandle, HandleToActor>))
    requires
        0 < handle_to_actor_capacity <= MAX_BROADCAST,
        0 < actor_to_handle_capacity <= MAX_QUEUE,
{
    let (broadcast_tx, broadcast_rx) = broadcast_channel(handle_to_actor_capacity);
    let (mpsc_tx, mpsc_rx) = queue(actor_to_handle_capacity);
    (Actor { broadcast_rx, mpsc_tx }, Handle { broadcast_tx, mpsc_rx })
}

} // verus!
