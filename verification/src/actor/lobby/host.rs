//! The session of a host: it opens a lobby, waits for its own command to
//! start, and hands the lobby over to the game.

use crate::actor::create;
use crate::arena::{no_players, player_count, players_of};
use crate::channel::{publish, queue, MAX_BROADCAST, MAX_QUEUE};
use crate::event::lobby::{CreateLobby, LobbyCreated, StartGame};
use crate::event::player::{PlayerAction, PlayerResponds};
use crate::game::player::{LobbyStart, PlayerEvent};
use crate::game::{Lobby, LobbyManager, LobbyView};
use crate::zzz::{GameState, ZipZapZop};
use core::convert::Infallible;
use tokio::sync::{broadcast, mpsc};
use triomphe::Arc;
use vstd::prelude::*;

verus! {

/// Why a lobby did not become a game.
#[derive(Debug, Clone, Copy, PartialEq, Eq, Structural)]
pub enum StartError {
    /// The lobby was no longer in the registry.
    LobbyGone,
    /// The host counted other players than the lobby had.
    CountMismatch,
    /// Nobody was left to hear that the game starts.
    NoReceivers,
    /// Only some players responded in time.
    NotReady,
}

/// What the host holds of a game that is about to begin.
pub struct GameStart {
    /// The game, with the lobby's members as its players and the host to move first.
    pub zzz: ZipZapZop,
    /// Where the game announces what happens.
    pub broadcast_tx: broadcast::Sender<Arc<[u8]>>,
    /// Where the players' responses arrive.
    pub event_rx: mpsc::Receiver<PlayerResponds>,
    /// Closed once every player is ready; nothing ever arrives on it.
    pub ready_rx: mpsc::Receiver<Infallible>,
    /// The number of players.
    pub count: usize,
}

/// Whether a lobby can start on a command, and with how many players: the
/// lobby must be there, and the command's count must be the number of its
/// members. A count for which no queue can be made is the number of members
/// of no lobby.
pub open spec fn start_verdict(lobby: Option<LobbyView>, command: StartGame) -> Result<
    usize,
    StartError,
> {
    match lobby {
        None => Err(StartError::LobbyGone),
        Some(lobby) => if lobby.players.dom().len() == command.count && command.count
            <= MAX_QUEUE {
            Ok(command.count)
        } else {
            Err(StartError::CountMismatch)
        },
    }
}

/// The lobby `lid` of a registry, if it is open.
pub open spec fn lobby_of(lobbies: Map<usize, LobbyView>, lid: usize) -> Option<LobbyView> {
    if lobbies.dom().contains(lid) {
        Some(lobbies[lid])
    } else {
        None
    }
}

/// Opens the lobby that a host asked for, with the host as its only member.
/// Returns the acknowledgement for the host, which names the lobby's key and
/// the host's, and the host's subscription to the lobby's channel.
pub fn create_lobby(manager: &mut LobbyManager, request: CreateLobby, capacity: usize) -> (opened: (
    LobbyCreated,
    broadcast::Receiver<PlayerEvent>,
))
    requires
        old(manager).wf(),
        0 < capacity <= MAX_BROADCAST,
    ensures
        final(manager).wf(),
        opened.0.lid == old(manager).vacant(),
        !old(manager)@.dom().contains(opened.0.lid),
        opened.0.pid == 0,
        final(manager)@ == old(manager)@.insert(
            opened.0.lid,
            LobbyView {
                name: request.lobby,
                players: no_players().insert(opened.0.pid, request.player),
                vacant: final(manager)@[opened.0.lid].vacant,
            },
        ),
{
    let CreateLobby { player, lobby } = request;
    let (lid, pid, broadcast_rx) = manager.init_lobby(capacity, lobby, player);
    (LobbyCreated { lid, pid }, broadcast_rx)
}

/// Makes what a lobby that has left the registry needs to become a game, if
/// the host's command counts its members rightly: the bundle that is to be
/// handed to every member, which carries the command's count, and what the
/// host keeps, a game over the lobby's members in which the host `pid` moves
/// first. With them comes the lobby's channel, on which the bundle is to be
/// published. Fails with `CountMismatch` on any other count.
pub fn prepare_start(lobby: Lobby, pid: usize, command: StartGame) -> (prepared: Result<
    (broadcast::Sender<PlayerEvent>, LobbyStart, GameStart),
    StartError,
>)
    requires
        lobby@.inhabited(),
    ensures
        match prepared {
            Ok((_, bundle, start)) => {
                &&& start_verdict(Some(lobby@), command) == Ok::<usize, StartError>(command.count)
                &&& bundle.count == command.count
                &&& start.count == command.count
                &&& start.zzz@ == (GameState {
                    players: lobby@.players,
                    curr: pid,
                    action: PlayerAction::Zip,
                })
            },
            Err(error) => start_verdict(Some(lobby@), command) == Err::<usize, StartError>(error),
        },
{
    let StartGame { count } = command;
    if count != player_count(&lobby.players) {
        return Err(StartError::CountMismatch);
    }
    if count > MAX_QUEUE {
        return Err(StartError::CountMismatch);
    }
    proof {
        let members = players_of(lobby.players).dom();
        assert(members.contains(choose|member: usize| members.contains(member)));
        assert(members.len() != 0);
    }
    let (actor, handle) = create::<PlayerResponds, Arc<[u8]>>(count, count);
    let (ready_tx, ready_rx) = queue::<Infallible>(count);
    let bundle = LobbyStart {
        ready_tx,
        event_tx: actor.mpsc_tx,
        broadcast_rx: actor.broadcast_rx,
        count,
    };
    let start = GameStart {
        zzz: ZipZapZop::new(lobby.players, pid),
        broadcast_tx: handle.broadcast_tx,
        event_rx: handle.mpsc_rx,
        ready_rx,
        count,
    };
    Ok((lobby.sender, bundle, start))
}

/// Turns the lobby `lid` into a game on the host's command.
///
/// The lobby leaves the registry whatever follows. The start fails if the
/// lobby was gone already, or if the command counts other players than the
/// lobby has. Otherwise the bundle made by [`prepare_start`] is published on
/// the lobby's channel, and the start fails only if no member is there to
/// hear it. On success the host holds a game over the lobby's members in
/// which the host `pid` moves first.
pub fn start_game(manager: &mut LobbyManager, lid: usize, pid: usize, command: StartGame) -> (started:
    Result<GameStart, StartError>)
    requires
        old(manager).wf(),
    ensures
        final(manager).wf(),
        final(manager)@ == old(manager)@.remove(lid),
        final(manager).vacant() == (if old(manager)@.dom().contains(lid) {
            lid
        } else {
            old(manager).vacant()
        }),
        match started {
            Ok(start) => {
                &&& start_verdict(lobby_of(old(manager)@, lid), command) == Ok::<usize, StartError>(
                    command.count,
                )
                &&& start.count == command.count
                &&& start.zzz@ == (GameState {
                    players: old(manager)@[lid].players,
                    curr: pid,
                    action: PlayerAction::Zip,
                })
            },
            Err(StartError::NoReceivers) => start_verdict(lobby_of(old(manager)@, lid), command).is_ok(),
            Err(error) => start_verdict(lobby_of(old(manager)@, lid), command) == Err::<
                usize,
                StartError,
            >(error),
        },
{
    let Some(lobby) = manager.dissolve_lobby(lid) else {
        return Err(StartError::LobbyGone);
    };
    match prepare_start(lobby, pid, command) {
        Ok((sender, bundle, start)) => {
            if publish(&sender, PlayerEvent::Start(bundle)).is_none() {
                return Err(StartError::NoReceivers);
            }
            Ok(start)
        },
        Err(error) => Err(error),
    }
}

/// How the wait for the players' readiness ended.
#[derive(Debug, Clone, Copy, PartialEq, Eq, Structural)]
pub enum Readiness {
    /// Every player has let go of the readiness queue.
    AllReady,
    /// The time allowed for it has passed.
    TimedOut,
}

/// Whether the game may begin after the wait for readiness: it may when
/// every player is ready, and the session fails when time ran out first.
pub fn readiness(waited: Readiness) -> (ready: Result<(), StartError>)
    ensures
        ready == (match waited {
            Readiness::AllReady => Ok::<(), StartError>(()),
            Readiness::TimedOut => Err::<(), StartError>(StartError::NotReady),
        }),
{
    match waited {
        Readiness::AllReady => Ok(()),
        Readiness::TimedOut => Err(StartError::NotReady),
    }
}

/// Where a host's session stands.
#[derive(Debug, Clone, Copy, PartialEq, Eq, Structural)]
pub enum HostState {
    /// Connected; the request to create a lobby has not been read yet.
    AwaitingCreateRequest,
    /// The lobby is in the registry; the host is being told so.
    LobbyOpen,
    /// Passing on arrivals and departures until the host commands the start.
    AwaitingStartCommand,
    /// The lobby has left the registry; its members are getting ready.
    Dissolving,
    /// The turn loop runs.
    GameRunning,
    /// Over.
    Terminated,
}

/// What happened to a host's session.
#[derive(Debug, Clone, Copy, PartialEq, Eq, Structural)]
pub enum HostInput {
    /// The request was read and the lobby opened.
    Created,
    /// The host was told of the lobby's key and of its own.
    Acknowledged,
    /// The host commanded the start, and the lobby became a game.
    Commanded,
    /// Every player is ready.
    Ready,
    /// The turn loop has ended.
    Concluded,
    /// Anything else: the connection failed, a message had another shape
    /// than the one that was due, or the start failed.
    Failed,
}

/// What a host's session owes the others after a step.
#[derive(Debug, Clone, Copy, PartialEq, Eq, Structural)]
pub enum HostDuty {
    Nothing,
    /// Wait, for a bounded time, until every player is ready.
    AwaitReadiness,
    /// Run the turn loop.
    RunGame,
    /// Take the lobby out of the registry, so that its members are let go.
    Dissolve,
}

impl HostState {
    /// The state in which `input` is the step forward, and where it leads.
    pub open spec fn advance(self, input: HostInput) -> Option<(HostState, HostDuty)> {
        match (self, input) {
            (HostState::AwaitingCreateRequest, HostInput::Created) => Some(
                (HostState::LobbyOpen, HostDuty::Nothing),
            ),
            (HostState::LobbyOpen, HostInput::Acknowledged) => Some(
                (HostState::AwaitingStartCommand, HostDuty::Nothing),
            ),
            (HostState::AwaitingStartCommand, HostInput::Commanded) => Some(
                (HostState::Dissolving, HostDuty::AwaitReadiness),
            ),
            (HostState::Dissolving, HostInput::Ready) => Some(
                (HostState::GameRunning, HostDuty::RunGame),
            ),
            (HostState::GameRunning, HostInput::Concluded) => Some(
                (HostState::Terminated, HostDuty::Nothing),
            ),
            _ => None,
        }
    }

    /// What a session that breaks off in this state owes the others: while
    /// its lobby is in the registry, the lobby is dissolved.
    pub open spec fn debt(self) -> HostDuty {
        match self {
            HostState::LobbyOpen | HostState::AwaitingStartCommand => HostDuty::Dissolve,
            _ => HostDuty::Nothing,
        }
    }

    /// The state after `input`, and what is owed: a session that is over stays
    /// as it is; the input that is due leads on; any other ends the session.
    pub open spec fn after(self, input: HostInput) -> (HostState, HostDuty) {
        if self == HostState::Terminated {
            (self, HostDuty::Nothing)
        } else {
            match self.advance(input) {
                Some(onward) => onward,
                None => (HostState::Terminated, self.debt()),
            }
        }
    }

    /// Takes one step of the session.
    pub fn step(self, input: HostInput) -> (onward: (HostState, HostDuty))
        ensures
            onward == self.after(input),
    {
        match (self, input) {
            (HostState::Terminated, _) => (HostState::Terminated, HostDuty::Nothing),
            (HostState::AwaitingCreateRequest, HostInput::Created) => (
                HostState::LobbyOpen,
                HostDuty::Nothing,
            ),
            (HostState::LobbyOpen, HostInput::Acknowledged) => (
                HostState::AwaitingStartCommand,
                HostDuty::Nothing,
            ),
            (HostState::AwaitingStartCommand, HostInput::Commanded) => (
                HostState::Dissolving,
                HostDuty::AwaitReadiness,
            ),
            (HostState::Dissolving, HostInput::Ready) => (HostState::GameRunning, HostDuty::RunGame),
            (HostState::GameRunning, HostInput::Concluded) => (
                HostState::Terminated,
                HostDuty::Nothing,
            ),
            (HostState::LobbyOpen, _) => (HostState::Terminated, HostDuty::Dissolve),
            (HostState::AwaitingStartCommand, _) => (HostState::Terminated, HostDuty::Dissolve),
            (HostState::AwaitingCreateRequest, _) => (HostState::Terminated, HostDuty::Nothing),
            (HostState::Dissolving, _) => (HostState::Terminated, HostDuty::Nothing),
            (HostState::GameRunning, _) => (HostState::Terminated, HostDuty::Nothing),
        }
    }

    /// The turn loop is run by one step only: from a dissolved lobby whose
    /// players are all ready.
    pub proof fn lemma_game_runs_only_when_ready(self, input: HostInput)
        ensures
            self.after(input).1 == HostDuty::RunGame <==> self == HostState::Dissolving && input
                == HostInput::Ready,
    {
    }

    /// A session that is over stays over and owes nothing more.
    pub proof fn lemma_over_stays_over(input: HostInput)
        ensures
            HostState::Terminated.after(input) == (HostState::Terminated, HostDuty::Nothing),
    {
    }
}

} // verus!
