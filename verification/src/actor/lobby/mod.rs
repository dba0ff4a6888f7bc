//! The sessions of the host and of the guests of a lobby, from the first
//! request to the start of the game.

pub mod guest;
pub mod host;

use crate::actor::io::Heard;
use crate::event::lobby::{LobbyPlayerJoined, LobbyPlayerLeft};
use crate::event::Event;
use crate::game::player::{LobbyStart, PlayerEvent};
use vstd::prelude::*;

verus! {

/// What a member of a lobby does about one wait on the lobby's channel.
#[derive(Debug, Clone)]
pub enum LobbyStep {
    /// Somebody came or went: the client is told, and the wait goes on.
    Relay(Event),
    /// The game starts: the wait is over.
    Started(LobbyStart),
    /// The channel was closed, or the member fell behind on it: the lobby is
    /// lost to this member.
    Lost,
}

/// What a member of a lobby does about one wait on the lobby's channel.
pub open spec fn lobby_step_of(heard: Heard<PlayerEvent>) -> LobbyStep {
    match heard {
        Heard::Message(PlayerEvent::Joined(joined)) => LobbyStep::Relay(
            Event::LobbyPlayerJoined(LobbyPlayerJoined { pid: joined.id, player: joined.name }),
        ),
        Heard::Message(PlayerEvent::Left(left)) => LobbyStep::Relay(
            Event::LobbyPlayerLeft(LobbyPlayerLeft { pid: left.id }),
        ),
        Heard::Message(PlayerEvent::Start(start)) => LobbyStep::Started(start),
        Heard::Closed | Heard::Lagged(_) => LobbyStep::Lost,
    }
}

/// What a member of a lobby does about one wait on the lobby's channel:
/// arrivals and departures are passed on to the client, the start of the game
/// ends the wait with what the member needs to play, and a channel that is
/// closed or on which the member fell behind ends it with nothing.
pub fn wait_for_lobby_start(heard: Heard<PlayerEvent>) -> (step: LobbyStep)
    ensures
        step == lobby_step_of(heard),
{
    match heard {
        Heard::Message(PlayerEvent::Joined(joined)) => LobbyStep::Relay(
            Event::LobbyPlayerJoined(LobbyPlayerJoined { pid: joined.id, player: joined.name }),
        ),
        Heard::Message(PlayerEvent::Left(left)) => LobbyStep::Relay(
            Event::LobbyPlayerLeft(LobbyPlayerLeft { pid: left.id }),
        ),
        Heard::Message(PlayerEvent::Start(start)) => LobbyStep::Started(start),
        Heard::Closed => LobbyStep::Lost,
        Heard::Lagged(_) => LobbyStep::Lost,
    }
}

} // verus!
