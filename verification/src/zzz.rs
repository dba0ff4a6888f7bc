//! The game engine: who is still in, whose turn it is, and which word is due.

use crate::arena::{counts, first_player, has_player, player_at, player_count, players_of, remove_player};
use crate::event::game::GameExpected;
use crate::event::player::{PlayerAction, PlayerResponds};
use arcstr::ArcStr;
use jiff::Timestamp;
use slab::Slab;
use vstd::prelude::*;

verus! {

/// Why no winner can be named yet.
#[derive(Clone, Copy, Debug, PartialEq, Eq)]
pub enum GameWinnerError {
    /// Occurs when the lobby has no players to begin with.
    EmptyLobby,
    /// Occurs when there are more players in the lobby to declare a winner.
    MorePlayers,
}

/// What one response did to the game.
#[derive(Debug, PartialEq, Eq)]
pub enum TickResult<Player> {
    /// The game received an invalid player. This should be ignored.
    NoOp,
    /// The player issued a legal command.
    Proceed,
    /// The player was eliminated as a result of this game tick.
    Eliminated(Player),
}

/// The state of a game as contracts see it.
pub struct GameState {
    /// The players still in the game, by their keys.
    pub players: Map<usize, ArcStr>,
    /// The player expected to respond.
    pub curr: usize,
    /// The word that player must say.
    pub action: PlayerAction,
}

/// How a response is judged against a state.
pub enum Verdict {
    /// The responder is not in the game.
    Stale,
    /// The responder spoke out of turn.
    OutOfTurn,
    /// The expected player disqualified themselves: they named themselves or
    /// somebody who is not in the game, or said the wrong word.
    Forfeit,
    /// The expected player passed the turn on correctly.
    Valid,
}

impl GameState {
    /// The player `pid` is in the game.
    pub open spec fn has(self, pid: usize) -> bool {
        self.players.dom().contains(pid)
    }

    /// The key of the lowest-keyed player is `pid`.
    pub open spec fn is_lowest(self, pid: usize) -> bool {
        self.has(pid) && forall|lower: usize| lower < pid ==> !self.has(lower)
    }

    /// Nobody is left.
    pub open spec fn is_empty(self) -> bool {
        forall|pid: usize| !self.has(pid)
    }

    /// How `response` is judged: the tests are made in this order, and the
    /// first that applies decides.
    pub open spec fn judge(self, response: PlayerResponds) -> Verdict {
        if !self.has(response.pid) {
            Verdict::Stale
        } else if response.pid != self.curr {
            Verdict::OutOfTurn
        } else if response.pid == response.next || !self.has(response.next)
            || response.action != self.action {
            Verdict::Forfeit
        } else {
            Verdict::Valid
        }
    }

    /// The state that follows `self` when `response` arrives.
    pub open spec fn follows(self, response: PlayerResponds, after: GameState) -> bool {
        match self.judge(response) {
            Verdict::Stale => after == self,
            Verdict::OutOfTurn => after == (GameState {
                players: self.players.remove(response.pid),
                ..self
            }),
            Verdict::Forfeit => {
                &&& after.players == self.players.remove(response.pid)
                &&& after.action == PlayerAction::Zip
                &&& if after.is_empty() {
                    after.curr == self.curr
                } else {
                    after.is_lowest(after.curr)
                }
            },
            Verdict::Valid => after == (GameState {
                players: self.players,
                curr: response.next,
                action: self.action.successor(),
            }),
        }
    }

    /// What the engine reports for `response`.
    pub open spec fn report(self, response: PlayerResponds) -> TickResult<ArcStr> {
        match self.judge(response) {
            Verdict::Stale => TickResult::NoOp,
            Verdict::Valid => TickResult::Proceed,
            _ => TickResult::Eliminated(self.players[response.pid]),
        }
    }
}

impl GameState {
    /// A response from somebody who is not in the game is ignored: it is
    /// reported as `NoOp`, and the players, the turn and the word stay as they
    /// were.
    pub proof fn lemma_absent_responder_is_ignored(self, response: PlayerResponds, after: GameState)
        requires
            !self.has(response.pid),
            self.follows(response, after),
        ensures
            self.report(response) == TickResult::<ArcStr>::NoOp,
            after == self,
    {
    }

    /// A response from a player whose turn it is not eliminates that player
    /// and nobody else, and leaves the turn and the word as they were.
    pub proof fn lemma_out_of_turn_is_eliminated(self, response: PlayerResponds, after: GameState)
        requires
            self.has(response.pid),
            response.pid != self.curr,
            self.follows(response, after),
        ensures
            self.report(response) == TickResult::Eliminated(self.players[response.pid]),
            after.players == self.players.remove(response.pid),
            after.curr == self.curr,
            after.action == self.action,
    {
    }

    /// The expected player is eliminated by each of three faults alone:
    /// naming themselves, naming somebody who is not in the game, and saying
    /// another word than the one that is due. The word then starts over at
    /// Zip, and, if anybody else is in the game, the turn goes to one of those
    /// who remain.
    pub proof fn lemma_faulty_turn_is_eliminated(self, response: PlayerResponds, after: GameState)
        requires
            self.has(response.pid),
            response.pid == self.curr,
            response.next == response.pid || !self.has(response.next) || response.action
                != self.action,
            self.follows(response, after),
        ensures
            self.report(response) == TickResult::Eliminated(self.players[self.curr]),
            after.players == self.players.remove(self.curr),
            after.action == PlayerAction::Zip,
            (exists|other: usize| other != self.curr && self.has(other)) ==> after.has(after.curr)
                && self.has(after.curr) && after.curr != self.curr,
    {
        if exists|other: usize| other != self.curr && self.has(other) {
            let other = choose|other: usize| other != self.curr && self.has(other);
            assert(after.has(other));
        }
    }

    /// A response in turn that names another player of the game and says the
    /// word that is due passes the turn to the named player and advances the
    /// word by one step of the cycle; nobody leaves the game.
    pub proof fn lemma_valid_turn_proceeds(self, response: PlayerResponds, after: GameState)
        requires
            self.has(response.pid),
            response.pid == self.curr,
            response.next != response.pid,
            self.has(response.next),
            response.action == self.action,
            self.follows(response, after),
        ensures
            self.report(response) == TickResult::<ArcStr>::Proceed,
            after.players == self.players,
            after.curr == response.next,
            after.action == self.action.successor(),
    {
    }

    /// The expected player stays in the game: if the player whose turn it is
    /// is in the game before a response, then afterwards the game is empty
    /// or the player whose turn it then is is in it.
    pub proof fn lemma_expected_player_stays_in_the_game(
        self,
        response: PlayerResponds,
        after: GameState,
    )
        requires
            self.has(self.curr),
            self.follows(response, after),
        ensures
            after.is_empty() || after.has(after.curr),
    {
    }

    /// A state and a response leave no choice: at most one state follows.
    pub proof fn lemma_follows_is_unique(
        self,
        response: PlayerResponds,
        one: GameState,
        other: GameState,
    )
        requires
            self.follows(response, one),
            self.follows(response, other),
        ensures
            one == other,
    {
        if self.judge(response) is Forfeit {
            assert(one.players == other.players);
            if !one.is_empty() {
                let somebody = choose|pid: usize| one.has(pid);
                assert(other.has(somebody));
                assert(one.is_lowest(one.curr) && other.is_lowest(other.curr));
                assert(one.curr == other.curr) by {
                    if one.curr < other.curr {
                        assert(!other.has(one.curr));
                    } else if other.curr < one.curr {
                        assert(!one.has(other.curr));
                    }
                }
            } else {
                assert forall|pid: usize| !other.has(pid) by {
                    assert(!one.has(pid));
                }
            }
        }
    }
}

/// A game of Zip-Zap-Zop in progress.
#[derive(Debug)]
pub struct ZipZapZop {
    players: Slab<ArcStr>,
    curr: usize,
    action: PlayerAction,
}

impl View for ZipZapZop {
    type V = GameState;

    closed spec fn view(&self) -> GameState {
        GameState { players: players_of(self.players), curr: self.curr, action: self.action }
    }
}

impl ZipZapZop {
    /// A game over the given players in which `curr` moves first and must say Zip.
    pub fn new(players: Slab<ArcStr>, curr: usize) -> (game: Self)
        ensures
            game@ == (GameState { players: players_of(players), curr, action: PlayerAction::Zip }),
    {
        Self { players, curr, action: PlayerAction::Zip }
    }

    /// The action for the next expected message.
    pub fn expects(&self, deadline: Timestamp) -> (expected: GameExpected)
        ensures
            expected == (GameExpected { next: self@.curr, action: self@.action, deadline }),
    {
        GameExpected { next: self.curr, action: self.action, deadline }
    }

    /// The number of players still in the game.
    pub fn len(&self) -> (count: usize)
        ensures
            counts(count, self@.players),
    {
        player_count(&self.players)
    }

    /// The name of the player with the given key, if they are still in the game.
    pub fn get(&self, pid: usize) -> (found: Option<&ArcStr>)
        ensures
            match found {
                Some(name) => self@.has(pid) && *name == self@.players[pid],
                None => !self@.has(pid),
            },
    {
        player_at(&self.players, pid)
    }

    /// The sole remaining player. Fails with `EmptyLobby` when nobody is left
    /// and with `MorePlayers` when two or more are.
    pub fn winner(&self) -> (outcome: Result<(usize, &ArcStr), GameWinnerError>)
        ensures
            self@.players.dom().finite(),
            outcome.is_ok() <==> self@.players.dom().len() == 1,
            outcome == Err::<(usize, &ArcStr), GameWinnerError>(GameWinnerError::EmptyLobby)
                <==> self@.players.dom().len() == 0,
            outcome == Err::<(usize, &ArcStr), GameWinnerError>(GameWinnerError::MorePlayers)
                <==> self@.players.dom().len() >= 2,
            outcome matches Ok((pid, name)) ==> self@.players.dom() == set![pid] && *name
                == self@.players[pid],
    {
        let count: usize = player_count(&self.players);
        if count > 1 {
            return Err(GameWinnerError::MorePlayers);
        }
        match first_player(&self.players) {
            None => {
                proof {
                    assert(self@.players.dom() =~= Set::empty());
                }
                Err(GameWinnerError::EmptyLobby)
            },
            Some((pid, name)) => {
                proof {
                    let keys = self@.players.dom();
                    assert(keys.contains(pid));
                    assert(keys.len() == 1);
                    assert(keys.remove(pid).len() == 0);
                    assert(keys.remove(pid) =~= Set::empty());
                    assert(keys =~= set![pid]);
                }
                Ok((pid, name))
            },
        }
    }

    /// Ticks the game state forward.
    ///
    /// * If the responder is not in the game, nothing changes.
    /// * If the responder is not the expected player, they are eliminated and
    ///   the turn stays where it was.
    /// * If the expected player names themselves or somebody who is not in the
    ///   game, or says the wrong word, they are eliminated; the turn goes to
    ///   the remaining player with the lowest key and the word starts over at
    ///   Zip. When nobody remains the turn is left as it was.
    /// * Otherwise the turn goes to the named player and the word advances.
    pub fn tick(&mut self, response: PlayerResponds) -> (result: TickResult<ArcStr>)
        ensures
            result == old(self)@.report(response),
            old(self)@.follows(response, final(self)@),
    {
        let PlayerResponds { pid, next, action } = response;
        if !has_player(&self.players, pid) {
            return TickResult::NoOp;
        }
        let must_reassign = if pid != self.curr {
            false
        } else if pid == next || !has_player(&self.players, next) || action != self.action {
            true
        } else {
            self.curr = next;
            self.action = self.action.next();
            return TickResult::Proceed;
        };
        let removed = remove_player(&mut self.players, pid);
        if must_reassign {
            self.action = PlayerAction::Zip;
            if let Some((lowest, _)) = first_player(&self.players) {
                self.curr = lowest;
            }
        }
        match removed {
            Some(player) => TickResult::Eliminated(player),
            None => TickResult::NoOp,
        }
    }
}

} // verus!
