//! What a lobby tells its members.

use crate::channel::{another_sender, resubscribe};
use crate::event::player::PlayerResponds;
use arcstr::ArcStr;
use core::convert::Infallible;
use tokio::sync::{broadcast, mpsc};
use triomphe::Arc;
use vstd::prelude::*;
use vstd::std_specs::convert::FromSpecImpl;

verus! {

#[derive(Debug, Clone, PartialEq, Eq)]
pub struct PlayerJoined {
    pub id: usize,
    pub name: ArcStr,
}

#[derive(Debug, Clone, PartialEq, Eq)]
pub struct PlayerLeft {
    pub id: usize,
}

/// What every member of a lobby is handed when its game starts.
#[derive(Debug)]
pub struct LobbyStart {
    /// Dropped by a member to say that they are ready; nothing is ever sent on it.
    pub ready_tx: mpsc::Sender<Infallible>,
    /// Where a member submits their responses during the game.
    pub event_tx: mpsc::Sender<PlayerResponds>,
    /// Where a member hears what happens in the game.
    pub broadcast_rx: broadcast::Receiver<Arc<[u8]>>,
    /// Number of known players in the game.
    pub count: usize,
}

impl Clone for LobbyStart {
    /// A copy for one more member: it feeds the same queues and hears the same
    /// channel, and carries the same count.
    fn clone(&self) -> (copy: Self)
        ensures
            copy.count == self.count,
    {
        let ready_tx = another_sender(&self.ready_tx);
        let event_tx = another_sender(&self.event_tx);
        let broadcast_rx = resubscribe(&self.broadcast_rx);
        let count = self.count;
        Self { broadcast_rx, ready_tx, event_tx, count }
    }
}

#[derive(Debug, Clone)]
pub enum PlayerEvent {
    Joined(PlayerJoined),
    Left(PlayerLeft),
    Start(LobbyStart),
}

impl From<PlayerJoined> for PlayerEvent {
    fn from(value: PlayerJoined) -> (event: Self) {
        Self::Joined(value)
    }
}

impl FromSpecImpl<PlayerJoined> for PlayerEvent {
    open spec fn obeys_from_spec() -> bool {
        true
    }

    open spec fn from_spec(value: PlayerJoined) -> Self {
        Self::Joined(value)
    }
}

impl From<PlayerLeft> for PlayerEvent {
    fn from(value: PlayerLeft) -> (event: Self) {
        Self::Left(value)
    }
}

impl FromSpecImpl<PlayerLeft> for PlayerEvent {
    open spec fn obeys_from_spec() -> bool {
        true
    }

    open spec fn from_spec(value: PlayerLeft) -> Self {
        Self::Left(value)
    }
}

impl From<LobbyStart> for PlayerEvent {
    fn from(value: LobbyStart) -> (event: Self) {
        Self::Start(value)
    }
}

impl FromSpecImpl<LobbyStart> for PlayerEvent {
    open spec fn obeys_from_spec() -> bool {
        true
    }

    open spec fn from_spec(value: LobbyStart) -> Self {
        Self::Start(value)
    }
}

} // verus!
