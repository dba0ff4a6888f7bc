//! What the registry tells those who watch the list of lobbies.

use arcstr::ArcStr;
use vstd::prelude::*;
use vstd::std_specs::convert::FromSpecImpl;

verus! {

#[derive(Debug, Clone, PartialEq, Eq)]
pub struct LobbyCreated {
    /// Server-specific unique identifier for the lobby.
    pub id: usize,
    /// Number of players currently in the lobby (including the host).
    pub players: usize,
    /// Name of the lobby as a string.
    pub name: ArcStr,
}

#[derive(Debug, Clone, PartialEq, Eq)]
pub struct LobbyDissolved {
    /// Server-specific unique identifier for the dissolved lobby.
    pub id: usize,
}

#[derive(Debug, Clone, PartialEq, Eq)]
pub struct LobbyUpdated {
    /// Server-specific unique identifier for the updated lobby.
    pub id: usize,
    /// New number of players.
    pub players: usize,
}

#[derive(Debug, Clone, PartialEq, Eq)]
pub enum LobbyEvent {
    Created(LobbyCreated),
    Dissolved(LobbyDissolved),
    Updated(LobbyUpdated),
}

impl From<LobbyCreated> for LobbyEvent {
    fn from(value: LobbyCreated) -> (event: Self) {
        Self::Created(value)
    }
}

impl FromSpecImpl<LobbyCreated> for LobbyEvent {
    open spec fn obeys_from_spec() -> bool {
        true
    }

    open spec fn from_spec(value: LobbyCreated) -> Self {
        Self::Created(value)
    }
}

impl From<LobbyDissolved> for LobbyEvent {
    fn from(value: LobbyDissolved) -> (event: Self) {
        Self::Dissolved(value)
    }
}

impl FromSpecImpl<LobbyDissolved> for LobbyEvent {
    open spec fn obeys_from_spec() -> bool {
        true
    }

    open spec fn from_spec(value: LobbyDissolved) -> Self {
        Self::Dissolved(value)
    }
}

impl From<LobbyUpdated> for LobbyEvent {
    fn from(value: LobbyUpdated) -> (event: Self) {
        Self::Updated(value)
    }
}

impl FromSpecImpl<LobbyUpdated> for LobbyEvent {
    open spec fn obeys_from_spec() -> bool {
        true
    }

    open spec fn from_spec(value: LobbyUpdated) -> Self {
        Self::Updated(value)
    }
}

} // verus!
