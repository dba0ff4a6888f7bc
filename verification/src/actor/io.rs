//! The two relays of a connection during a game: one carries what the client
//! sends to the game, the other what the game announces to the client.

use crate::event::player::{PlayerAction, PlayerResponds};
use vstd::prelude::*;

verus! {

/// The kind of a frame, as the transport names it.
#[derive(Debug, Clone, Copy, PartialEq, Eq, Structural)]
pub enum Opcode {
    Continuation,
    Text,
    Binary,
    Close,
    Ping,
    Pong,
}

/// What the transport tells of a frame it has read, apart from its payload.
#[derive(Debug, Clone, Copy, PartialEq, Eq, Structural)]
pub struct FrameHead {
    /// Whether the frame is the last one of its message.
    pub fin: bool,
    pub opcode: Opcode,
    /// The number of bytes in the payload.
    pub len: usize,
}

impl FrameHead {
    /// A frame carries a message when it is binary and whole.
    pub open spec fn carries_message(self) -> bool {
        self.fin && self.opcode == Opcode::Binary
    }

    /// A frame acknowledges when it carries a message without payload.
    pub open spec fn acknowledges(self) -> bool {
        self.carries_message() && self.len == 0
    }

    /// Whether the frame is a whole binary message, the only kind that is
    /// decoded.
    pub fn is_message(&self) -> (whole: bool)
        ensures
            whole == self.carries_message(),
    {
        self.fin && self.opcode == Opcode::Binary
    }

    /// Whether the frame is the empty binary message by which a client
    /// acknowledges.
    pub fn is_acknowledgement(&self) -> (empty: bool)
        ensures
            empty == self.acknowledges(),
    {
        self.is_message() && self.len == 0
    }
}

/// What the inbound relay got from one read of the connection.
#[derive(Debug, Clone, Copy, PartialEq, Eq)]
pub enum Received {
    /// A whole binary message that decoded as a response.
    Response(PlayerResponds),
    /// Anything else: the read failed, the frame was of another kind, or its
    /// payload did not decode.
    Unreadable,
}

/// What the inbound relay puts on the queue of the game.
#[derive(Debug, Clone, Copy, PartialEq, Eq)]
pub enum Inbound {
    /// The response, under the connection's own player; the relay goes on if
    /// the queue takes it and ends silently if the game is gone.
    Forward(PlayerResponds),
    /// The player's self-elimination, after which the relay ends.
    Farewell(PlayerResponds),
}

/// The response by which a player takes themselves out of the game: they name
/// themselves as the next player.
pub open spec fn farewell_of(pid: usize) -> PlayerResponds {
    PlayerResponds { pid, next: pid, action: PlayerAction::Zip }
}

/// What the inbound relay of player `pid` does about one read.
pub open spec fn inbound_of(pid: usize, received: Received) -> Inbound {
    match received {
        Received::Response(response) => Inbound::Forward(
            PlayerResponds { pid, next: response.next, action: response.action },
        ),
        Received::Unreadable => Inbound::Farewell(farewell_of(pid)),
    }
}

/// The self-elimination of player `pid`.
pub fn farewell(pid: usize) -> (response: PlayerResponds)
    ensures
        response == farewell_of(pid),
{
    PlayerResponds { pid, next: pid, action: PlayerAction::Zip }
}

/// What the inbound relay of player `pid` does about one read: a response is
/// forwarded as that player's, whoever it claims to be from; anything else
/// ends the relay with the player's self-elimination, so that the game is
/// never left waiting for them.
pub fn inbound(pid: usize, received: Received) -> (step: Inbound)
    ensures
        step == inbound_of(pid, received),
{
    match received {
        Received::Response(response) => Inbound::Forward(
            PlayerResponds { pid, next: response.next, action: response.action },
        ),
        Received::Unreadable => Inbound::Farewell(farewell(pid)),
    }
}

/// What a subscriber got from one wait on its channel.
#[derive(Debug, Clone)]
pub enum Heard<T> {
    Message(T),
    /// Every sender is gone and nothing is left to read.
    Closed,
    /// The subscriber fell behind and missed this many messages.
    Lagged(u64),
}

/// Why a relay towards a client ended.
#[derive(Debug, Clone, Copy, PartialEq, Eq, Structural)]
pub enum RelayEnd {
    /// The channel was closed: the ordinary end.
    Graceful,
    /// The subscriber missed this many messages. The client's picture of the
    /// game can no longer be trusted, so the relay fails.
    Lagged(u64),
}

/// What the outbound relay does about one wait.
pub open spec fn outbound_of<T>(heard: Heard<T>) -> Result<T, RelayEnd> {
    match heard {
        Heard::Message(message) => Ok(message),
        Heard::Closed => Err(RelayEnd::Graceful),
        Heard::Lagged(missed) => Err(RelayEnd::Lagged(missed)),
    }
}

/// What the outbound relay does about one wait: a message is written to the
/// client; a closed channel ends the relay quietly; a lagging subscriber
/// ends it with a failure.
pub fn outbound<T>(heard: Heard<T>) -> (step: Result<T, RelayEnd>)
    ensures
        step == outbound_of(heard),
{
    match heard {
        Heard::Message(message) => Ok(message),
        Heard::Closed => Err(RelayEnd::Graceful),
        Heard::Lagged(missed) => Err(RelayEnd::Lagged(missed)),
    }
}

} // verus!
