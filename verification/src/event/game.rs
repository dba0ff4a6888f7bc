//! What the game tells its players.

use crate::event::player::PlayerAction;
use jiff::Timestamp;
use vstd::prelude::*;

verus! {

#[verifier::external_type_specification]
#[verifier::external_body]
pub struct ExTimestamp(Timestamp);

/// The game has begun with this many players.
#[derive(Clone, Copy, Debug, PartialEq, Eq)]
pub struct GameStarted {
    pub count: usize,
}

/// Whose turn it is, which word they must say, and by when.
#[derive(Clone, Copy, Debug, PartialEq, Eq)]
pub struct GameExpected {
    /// The game expects the player with this ID to respond.
    pub next: usize,
    pub action: PlayerAction,
    pub deadline: Timestamp,
}

#[derive(Clone, Copy, Debug, PartialEq, Eq)]
pub struct GameEliminated {
    /// The ID of the eliminated player.
    pub pid: usize,
}

#[derive(Clone, Copy, Debug, PartialEq, Eq)]
pub struct GameConcluded {
    /// The player ID of the winner.
    pub pid: usize,
}

} // verus!
