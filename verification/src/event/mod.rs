//! The messages exchanged with clients.

pub mod game;
pub mod lobby;
pub mod player;

use crate::event::game::{GameConcluded, GameEliminated, GameExpected, GameStarted};
use crate::event::lobby::{LobbyCreated, LobbyJoined, LobbyPlayerJoined, LobbyPlayerLeft};
use vstd::prelude::*;
use vstd::std_specs::convert::FromSpecImpl;

verus! {

/// Everything a client can be told, under one roof.
#[derive(Debug, Clone, PartialEq, Eq)]
pub enum Event {
    LobbyCreated(LobbyCreated),
    LobbyJoined(LobbyJoined),
    LobbyPlayerJoined(LobbyPlayerJoined),
    LobbyPlayerLeft(LobbyPlayerLeft),
    GameStarted(GameStarted),
    GameExpected(GameExpected),
    GameEliminated(GameEliminated),
    GameConcluded(GameConcluded),
}

impl From<LobbyCreated> for Event {
    fn from(value: LobbyCreated) -> (event: Self) {
        Self::LobbyCreated(value)
    }
}

impl FromSpecImpl<LobbyCreated> for Event {
    open spec fn obeys_from_spec() -> bool {
        true
    }

    open spec fn from_spec(value: LobbyCreated) -> Self {
        Self::LobbyCreated(value)
    }
}

impl From<LobbyJoined> for Event {
    fn from(value: LobbyJoined) -> (event: Self) {
        Self::LobbyJoined(value)
    }
}

impl FromSpecImpl<LobbyJoined> for Event {
    open spec fn obeys_from_spec() -> bool {
        true
    }

    open spec fn from_spec(value: LobbyJoined) -> Self {
        Self::LobbyJoined(value)
    }
}

impl From<LobbyPlayerJoined> for Event {
    fn from(value: LobbyPlayerJoined) -> (event: Self) {
        Self::LobbyPlayerJoined(value)
    }
}

impl FromSpecImpl<LobbyPlayerJoined> for Event {
    open spec fn obeys_from_spec() -> bool {
        true
    }

    open spec fn from_spec(value: LobbyPlayerJoined) -> Self {
        Self::LobbyPlayerJoined(value)
    }
}

impl From<LobbyPlayerLeft> for Event {
    fn from(value: LobbyPlayerLeft) -> (event: Self) {
        Self::LobbyPlayerLeft(value)
    }
}

impl FromSpecImpl<LobbyPlayerLeft> for Event {
    open spec fn obeys_from_spec() -> bool {
        true
    }

    open spec fn from_spec(value: LobbyPlayerLeft) -> Self {
        Self::LobbyPlayerLeft(value)
    }
}

impl From<GameStarted> for Event {
    fn from(value: GameStarted) -> (event: Self) {
        Self::GameStarted(value)
    }
}

impl FromSpecImpl<GameStarted> for Event {
    open spec fn obeys_from_spec() -> bool {
        true
    }

    open spec fn from_spec(value: GameStarted) -> Self {
        Self::GameStarted(value)
    }
}

impl From<GameExpected> for Event {
    fn from(value: GameExpected) -> (event: Self) {
        Self::GameExpected(value)
    }
}

impl FromSpecImpl<GameExpected> for Event {
    open spec fn obeys_from_spec() -> bool {
        true
    }

    open spec fn from_spec(value: GameExpected) -> Self {
        Self::GameExpected(value)
    }
}

impl From<GameEliminated> for Event {
    fn from(value: GameEliminated) -> (event: Self) {
        Self::GameEliminated(value)
    }
}

impl FromSpecImpl<GameEliminated> for Event {
    open spec fn obeys_from_spec() -> bool {
        true
    }

    open spec fn from_spec(value: GameEliminated) -> Self {
        Self::GameEliminated(value)
    }
}

impl From<GameConcluded> for Event {
    fn from(value: GameConcluded) -> (event: Self) {
        Self::GameConcluded(value)
    }
}

impl FromSpecImpl<GameConcluded> for Event {
    open spec fn obeys_from_spec() -> bool {
        true
    }

    open spec fn from_spec(value: GameConcluded) -> Self {
        Self::GameConcluded(value)
    }
}

} // verus!
