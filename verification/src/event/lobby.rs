//! What is said while a lobby is open.

use arcstr::ArcStr;
use vstd::prelude::*;

verus! {

/// A host asks for a lobby of the given name.
#[derive(Debug, Clone, PartialEq, Eq)]
pub struct CreateLobby {
    pub player: ArcStr,
    pub lobby: ArcStr,
}

/// The lobby was opened under `lid`, with the host in it as `pid`.
#[derive(Debug, Clone, Copy, PartialEq, Eq)]
pub struct LobbyCreated {
    pub lid: usize,
    pub pid: usize,
}

/// A guest asks to enter the lobby `lid` under the given name.
#[derive(Debug, Clone, PartialEq, Eq)]
pub struct JoinLobby {
    pub lid: usize,
    pub player: ArcStr,
}

/// The guest has entered the lobby of the given name as `pid`.
#[derive(Debug, Clone, PartialEq, Eq)]
pub struct LobbyJoined {
    pub lobby: ArcStr,
    pub pid: usize,
}

#[derive(Debug, Clone, PartialEq, Eq)]
pub struct LobbyPlayerJoined {
    pub pid: usize,
    pub player: ArcStr,
}

#[derive(Debug, Clone, Copy, PartialEq, Eq)]
pub struct LobbyPlayerLeft {
    pub pid: usize,
}

/// The host's command to start the game with the players it counts.
#[derive(Debug, Clone, Copy, PartialEq, Eq)]
pub struct StartGame {
    pub count: usize,
}

} // verus!
