//! The session of a guest: it enters a lobby, is told who is there, waits for
//! the game to start and confirms that it is ready to play.

use crate::arena::{arena_entries, lists, players_of, rising};
use crate::event::lobby::{JoinLobby, LobbyJoined, LobbyPlayerJoined};
use crate::event::Event;
use crate::game::player::PlayerEvent;
use crate::game::{with_member, LobbyManager};
use arcstr::ArcStr;
use slab::Slab;
use tokio::sync::broadcast;
use vstd::prelude::*;

verus! {

/// What a guest holds after entering a lobby.
pub struct Entered {
    /// The guest's key in the lobby.
    pub pid: usize,
    /// The lobby's name.
    pub lobby: ArcStr,
    /// The members that were there before the guest.
    pub snapshot: Slab<ArcStr>,
    /// The guest's subscription to the lobby's channel.
    pub broadcast_rx: broadcast::Receiver<PlayerEvent>,
}

/// Enters the guest into the lobby that the request names. Returns nothing,
/// and changes nothing, where there is no such lobby. Otherwise the guest is
/// a member under a key that was free, and holds the lobby's name, the members
/// that were there before, and a subscription on which their own arrival is
/// the first thing to be heard.
pub fn join_lobby(manager: &mut LobbyManager, request: JoinLobby) -> (entered: Option<Entered>)
    requires
        old(manager).wf(),
    ensures
        final(manager).wf(),
        match entered {
            Some(entered) => {
                &&& old(manager)@.dom().contains(request.lid)
                &&& entered.pid == old(manager)@[request.lid].vacant
                &&& !old(manager)@[request.lid].players.dom().contains(entered.pid)
                &&& entered.lobby == old(manager)@[request.lid].name
                &&& players_of(entered.snapshot) == old(manager)@[request.lid].players
                &&& final(manager)@ == with_member(
                    old(manager)@,
                    request.lid,
                    entered.pid,
                    request.player,
                    final(manager)@[request.lid].vacant,
                )
            },
            None => !old(manager)@.dom().contains(request.lid) && final(manager)@ == old(manager)@,
        },
{
    let JoinLobby { lid, player } = request;
    let Some((lobby, snapshot)) = manager.snapshot_of_lobby(lid) else {
        return None;
    };
    match manager.join_player_into_lobby(lid, player) {
        Some((pid, broadcast_rx)) => Some(Entered { pid, lobby, snapshot, broadcast_rx }),
        None => None,
    }
}

/// The announcement of one known member.
pub open spec fn introduction(entry: (usize, ArcStr)) -> Event {
    Event::LobbyPlayerJoined(LobbyPlayerJoined { pid: entry.0, player: entry.1 })
}

/// What a guest is told on entering: that they have joined, and then each
/// member in turn.
pub open spec fn greeting(pid: usize, lobby: ArcStr, entries: Seq<(usize, ArcStr)>) -> Seq<Event> {
    seq![Event::LobbyJoined(LobbyJoined { lobby, pid })] + entries.map_values(
        |entry: (usize, ArcStr)| introduction(entry),
    )
}

/// What a guest is told on entering a lobby: first that they have joined the
/// lobby of that name under their key, then every member that was there
/// before them, once each, in the order of the keys.
pub fn send_known_players(pid: usize, lobby: ArcStr, snapshot: &Slab<ArcStr>) -> (events: Vec<Event>)
    ensures
        exists|entries: Seq<(usize, ArcStr)>|
            rising(entries) && lists(entries, players_of(*snapshot)) && events@ == greeting(
                pid,
                lobby,
                entries,
            ),
{
    let entries = arena_entries(snapshot);
    let mut events: Vec<Event> = Vec::new();
    events.push(Event::LobbyJoined(LobbyJoined { lobby, pid }));
    let mut index: usize = 0;
    while index < entries.len()
        invariant
            index <= entries.len(),
            events@ == greeting(pid, lobby, entries@.take(index as int)),
        decreases entries.len() - index,
    {
        let (key, name) = (entries[index].0, entries[index].1.clone());
        events.push(Event::LobbyPlayerJoined(LobbyPlayerJoined { pid: key, player: name }));
        proof {
            let done = entries@.take(index as int);
            let more = entries@.take(index + 1);
            assert(more =~= done.push(entries@[index as int]));
            assert(greeting(pid, lobby, more) =~= greeting(pid, lobby, done).push(
                introduction(entries@[index as int]),
            ));
        }
        index = index + 1;
    }
    proof {
        assert(entries@.take(index as int) =~= entries@);
    }
    events
}

/// Where a guest's session stands.
#[derive(Debug, Clone, Copy, PartialEq, Eq, Structural)]
pub enum GuestState {
    /// Connected; the request to join has not been read yet.
    AwaitingJoinRequest,
    /// A member of the lobby; being told who else is there.
    WaitingInLobby,
    /// Passing on arrivals and departures until the game starts.
    WaitingForStart,
    /// Told that the game starts; the client has not acknowledged yet.
    ReadyHandshake,
    /// Ready; the two relays carry the game.
    Playing,
    /// Over, in the ordinary way.
    Terminated,
    /// Over, because something failed.
    Disconnected,
}

/// What happened to a guest's session.
#[derive(Debug, Clone, Copy, PartialEq, Eq, Structural)]
pub enum GuestInput {
    /// The request was read and the guest entered the lobby.
    Joined,
    /// The guest was told of the lobby and of the members known so far.
    Greeted,
    /// The lobby's channel brought the start of the game.
    Started,
    /// The client acknowledged the start with an empty message.
    Acknowledged,
    /// The relays have ended.
    Finished,
    /// Anything else: the connection failed, a message had another shape
    /// than the one that was due, there was no such lobby, or the lobby's
    /// channel was lost.
    Failed,
}

/// What a guest's session owes the others after a step.
#[derive(Debug, Clone, Copy, PartialEq, Eq, Structural)]
pub enum GuestDuty {
    Nothing,
    /// Tell the client that the game starts and wait for its acknowledgement.
    Notify,
    /// Let go of the readiness queue and run the two relays.
    Play,
    /// Leave the lobby, so that its members are told.
    LeaveLobby,
    /// Submit the guest's self-elimination, so that the game does not wait
    /// for them.
    Forfeit,
}

impl GuestState {
    /// The session is over.
    pub open spec fn is_final(self) -> bool {
        self == GuestState::Terminated || self == GuestState::Disconnected
    }

    /// The state in which `input` is the step forward, and where it leads.
    pub open spec fn advance(self, input: GuestInput) -> Option<(GuestState, GuestDuty)> {
        match (self, input) {
            (GuestState::AwaitingJoinRequest, GuestInput::Joined) => Some(
                (GuestState::WaitingInLobby, GuestDuty::Nothing),
            ),
            (GuestState::WaitingInLobby, GuestInput::Greeted) => Some(
                (GuestState::WaitingForStart, GuestDuty::Nothing),
            ),
            (GuestState::WaitingForStart, GuestInput::Started) => Some(
                (GuestState::ReadyHandshake, GuestDuty::Notify),
            ),
            (GuestState::ReadyHandshake, GuestInput::Acknowledged) => Some(
                (GuestState::Playing, GuestDuty::Play),
            ),
            (GuestState::Playing, GuestInput::Finished) => Some(
                (GuestState::Terminated, GuestDuty::Nothing),
            ),
            _ => None,
        }
    }

    /// What a session that breaks off in this state owes the others: a member
    /// of a lobby leaves it, and one who was told of the start of the game
    /// eliminates themselves from it.
    pub open spec fn debt(self) -> GuestDuty {
        match self {
            GuestState::WaitingInLobby | GuestState::WaitingForStart => GuestDuty::LeaveLobby,
            GuestState::ReadyHandshake => GuestDuty::Forfeit,
            _ => GuestDuty::Nothing,
        }
    }

    /// The state after `input`, and what is owed: a session that is over stays
    /// as it is; the input that is due leads on; any other breaks the session
    /// off.
    pub open spec fn after(self, input: GuestInput) -> (GuestState, GuestDuty) {
        if self.is_final() {
            (self, GuestDuty::Nothing)
        } else {
            match self.advance(input) {
                Some(onward) => onward,
                None => (GuestState::Disconnected, self.debt()),
            }
        }
    }

    /// Takes one step of the session.
    pub fn step(self, input: GuestInput) -> (onward: (GuestState, GuestDuty))
        ensures
            onward == self.after(input),
    {
        match (self, input) {
            (GuestState::Terminated, _) => (GuestState::Terminated, GuestDuty::Nothing),
            (GuestState::Disconnected, _) => (GuestState::Disconnected, GuestDuty::Nothing),
            (GuestState::AwaitingJoinRequest, GuestInput::Joined) => (
                GuestState::WaitingInLobby,
                GuestDuty::Nothing,
            ),
            (GuestState::WaitingInLobby, GuestInput::Greeted) => (
                GuestState::WaitingForStart,
                GuestDuty::Nothing,
            ),
            (GuestState::WaitingForStart, GuestInput::Started) => (
                GuestState::ReadyHandshake,
                GuestDuty::Notify,
            ),
            (GuestState::ReadyHandshake, GuestInput::Acknowledged) => (
                GuestState::Playing,
                GuestDuty::Play,
            ),
            (GuestState::Playing, GuestInput::Finished) => (
                GuestState::Terminated,
                GuestDuty::Nothing,
            ),
            (GuestState::WaitingInLobby, _) => (GuestState::Disconnected, GuestDuty::LeaveLobby),
            (GuestState::WaitingForStart, _) => (GuestState::Disconnected, GuestDuty::LeaveLobby),
            (GuestState::ReadyHandshake, _) => (GuestState::Disconnected, GuestDuty::Forfeit),
            (GuestState::AwaitingJoinRequest, _) => (GuestState::Disconnected, GuestDuty::Nothing),
            (GuestState::Playing, _) => (GuestState::Disconnected, GuestDuty::Nothing),
        }
    }

    /// A guest who was told that the game starts either plays or eliminates
    /// themselves: whatever happens in the handshake, the session goes on to
    /// play with the relays running, or ends with the guest's forfeit.
    pub proof fn lemma_handshake_plays_or_forfeits(input: GuestInput)
        ensures
            GuestState::ReadyHandshake.after(input) == (GuestState::Playing, GuestDuty::Play)
                || GuestState::ReadyHandshake.after(input) == (
                GuestState::Disconnected,
                GuestDuty::Forfeit,
            ),
    {
    }

    /// A member of a lobby whose session breaks off before the game starts
    /// leaves the lobby.
    pub proof fn lemma_member_leaves_on_failure(self)
        requires
            self == GuestState::WaitingInLobby || self == GuestState::WaitingForStart,
        ensures
            self.after(GuestInput::Failed) == (GuestState::Disconnected, GuestDuty::LeaveLobby),
    {
    }

    /// A session that is over stays over and owes nothing more.
    pub proof fn lemma_over_stays_over(self, input: GuestInput)
        requires
            self.is_final(),
        ensures
            self.after(input) == (self, GuestDuty::Nothing),
    {
    }
}

} // verus!
