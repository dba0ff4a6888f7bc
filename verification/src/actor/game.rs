//! The turn loop of a game: it announces whose turn it is, waits for a
//! response until the round's deadline, and applies what arrived.

use crate::event::game::{GameConcluded, GameEliminated, GameExpected};
use crate::event::player::PlayerResponds;
use crate::event::Event;
use crate::zzz::{GameState, GameWinnerError, TickResult, Verdict, ZipZapZop};
use jiff::Timestamp;
use vstd::prelude::*;

verus! {

/// How a game stands before a round.
#[derive(Debug, Clone, PartialEq, Eq)]
pub enum Standing {
    /// One player remains: the event names them the winner; it is announced
    /// and the loop ends.
    Concluded(Event),
    /// Nobody remains: the loop ends with nothing to announce.
    Abandoned,
    /// Two or more players remain: another round is played.
    Undecided,
}

/// What the wait for a response ended with.
#[derive(Debug, Clone, Copy, PartialEq, Eq)]
pub enum Awaited {
    /// A response arrived before the deadline.
    Responded(PlayerResponds),
    /// The deadline passed.
    TimedOut,
    /// Every sender of responses is gone.
    Closed,
}

/// What the loop does after a wait.
#[derive(Debug, PartialEq, Eq)]
pub enum RoundStep {
    /// The response came from nobody in the game: the wait of this round
    /// goes on, until the time given, which is the deadline that was
    /// announced for the round.
    KeepWaiting(Timestamp),
    /// The round is over and nothing is to be announced: the turn was passed
    /// on, or the deadline has passed and the player it was set for is not in
    /// the game.
    NextRound,
    /// A player was eliminated: the event says who; it is announced and the
    /// round is over.
    Announce(Event),
    /// All players have left: the loop ends.
    Stop,
}

/// The response that stands for the silence of the expected player: they
/// answer in turn, with the word that is due, and name themselves.
pub open spec fn forfeit_of(expected: GameExpected) -> PlayerResponds {
    PlayerResponds { pid: expected.next, next: expected.next, action: expected.action }
}

/// The response that a wait amounts to, if any.
pub open spec fn response_of(expected: GameExpected, awaited: Awaited) -> Option<PlayerResponds> {
    match awaited {
        Awaited::Responded(response) => Some(response),
        Awaited::TimedOut => Some(forfeit_of(expected)),
        Awaited::Closed => None,
    }
}

/// The round counter after a response was judged: a turn passed on adds
/// one, an elimination starts over at zero, anything else leaves it. At its
/// largest value the counter stays where it is.
pub open spec fn round_after(round: u32, verdict: Verdict) -> u32 {
    match verdict {
        Verdict::Valid => if round < u32::MAX {
            (round + 1) as u32
        } else {
            round
        },
        Verdict::OutOfTurn | Verdict::Forfeit => 0,
        Verdict::Stale => round,
    }
}

/// What the loop does after the response of `pid` was judged. A response
/// that is ignored leaves the wait to go on until the deadline of the
/// announcement; once the deadline has passed the round is over whatever the
/// verdict.
pub open spec fn round_step(
    verdict: Verdict,
    pid: usize,
    awaited: Awaited,
    expected: GameExpected,
) -> RoundStep {
    match verdict {
        Verdict::Stale => match awaited {
            Awaited::TimedOut => RoundStep::NextRound,
            _ => RoundStep::KeepWaiting(expected.deadline),
        },
        Verdict::Valid => RoundStep::NextRound,
        Verdict::OutOfTurn | Verdict::Forfeit => RoundStep::Announce(
            Event::GameEliminated(GameEliminated { pid }),
        ),
    }
}

/// What a wait leads to in a game that is in `state`.
pub open spec fn step_of(state: GameState, expected: GameExpected, awaited: Awaited) -> RoundStep {
    match response_of(expected, awaited) {
        None => RoundStep::Stop,
        Some(response) => round_step(state.judge(response), response.pid, awaited, expected),
    }
}

/// The round counter after a wait in a game that is in `state`.
pub open spec fn round_of(
    state: GameState,
    round: u32,
    expected: GameExpected,
    awaited: Awaited,
) -> u32 {
    match response_of(expected, awaited) {
        None => round,
        Some(response) => round_after(round, state.judge(response)),
    }
}

/// The round counter rises by one with every turn that is passed on, and
/// starts over at zero with every elimination, whatever it was; a response
/// that is ignored leaves it alone. A deadline that shrinks as the counter
/// grows therefore shrinks from round to round while turns are passed on, and
/// is back at its longest after an elimination. The counter cannot rise
/// above its largest value.
pub proof fn lemma_round_counter_rises_and_resets(round: u32, verdict: Verdict)
    ensures
        verdict is Valid && round < u32::MAX ==> round_after(round, verdict) == round + 1,
        verdict is Valid ==> round_after(round, verdict) >= round,
        verdict is OutOfTurn || verdict is Forfeit ==> round_after(round, verdict) == 0,
        verdict is Stale ==> round_after(round, verdict) == round,
{
}

/// A valid response that arrives in time ends the round, adds one to the
/// counter and passes the turn on as the response says; nothing is
/// announced.
pub proof fn lemma_valid_response_ends_the_round(
    state: GameState,
    round: u32,
    expected: GameExpected,
    response: PlayerResponds,
    after: GameState,
)
    requires
        round < u32::MAX,
        state.judge(response) is Valid,
        state.follows(response, after),
    ensures
        step_of(state, expected, Awaited::Responded(response)) == RoundStep::NextRound,
        round_of(state, round, expected, Awaited::Responded(response)) == round + 1,
        after.players == state.players,
        after.curr == response.next,
        after.action == state.action.successor(),
{
}

/// A response that eliminates its sender ends the round with the
/// announcement of that elimination and sets the counter to zero, whatever
/// it was; the sender is out of the game.
pub proof fn lemma_elimination_ends_the_round(
    state: GameState,
    round: u32,
    expected: GameExpected,
    response: PlayerResponds,
    after: GameState,
)
    requires
        state.judge(response) is OutOfTurn || state.judge(response) is Forfeit,
        state.follows(response, after),
    ensures
        step_of(state, expected, Awaited::Responded(response)) == RoundStep::Announce(
            Event::GameEliminated(GameEliminated { pid: response.pid }),
        ),
        round_of(state, round, expected, Awaited::Responded(response)) == 0,
        after.players == state.players.remove(response.pid),
        !after.has(response.pid),
{
}

/// A response from nobody in the game changes nothing and announces nothing:
/// the wait goes on, and it goes on until the deadline that was announced,
/// however many such responses arrive.
pub proof fn lemma_ignored_response_keeps_the_deadline(
    state: GameState,
    round: u32,
    expected: GameExpected,
    response: PlayerResponds,
    after: GameState,
)
    requires
        !state.has(response.pid),
        state.follows(response, after),
    ensures
        step_of(state, expected, Awaited::Responded(response)) == RoundStep::KeepWaiting(
            expected.deadline,
        ),
        round_of(state, round, expected, Awaited::Responded(response)) == round,
        after == state,
{
}

/// Once the deadline has passed the round is over: the wait never goes on.
pub proof fn lemma_deadline_ends_the_round(state: GameState, expected: GameExpected)
    ensures
        !(step_of(state, expected, Awaited::TimedOut) is KeepWaiting),
        !(step_of(state, expected, Awaited::TimedOut) is Stop),
{
}

/// A deadline that passes takes the expected player out of the game, as
/// their own response naming themselves would: where the announcement is
/// that of the game's state and the expected player is in the game, their
/// elimination is announced, the counter is set to zero, and the turn goes
/// to one of those who remain, if anybody does.
pub proof fn lemma_silence_forfeits(
    state: GameState,
    round: u32,
    expected: GameExpected,
    after: GameState,
)
    requires
        state.has(state.curr),
        expected.next == state.curr,
        expected.action == state.action,
        state.follows(forfeit_of(expected), after),
    ensures
        state.judge(forfeit_of(expected)) is Forfeit,
        step_of(state, expected, Awaited::TimedOut) == RoundStep::Announce(
            Event::GameEliminated(GameEliminated { pid: state.curr }),
        ),
        round_of(state, round, expected, Awaited::TimedOut) == 0,
        after.players == state.players.remove(state.curr),
        after.is_empty() || after.has(after.curr),
{
}

/// How the game stands: concluded with its winner when exactly one player
/// remains, abandoned when none does, undecided otherwise.
pub fn standing(zzz: &ZipZapZop) -> (standing: Standing)
    ensures
        zzz@.players.dom().finite(),
        match standing {
            Standing::Concluded(event) => exists|pid: usize|
                zzz@.players.dom() == set![pid] && event == Event::GameConcluded(
                    GameConcluded { pid },
                ),
            Standing::Abandoned => zzz@.players.dom().len() == 0,
            Standing::Undecided => zzz@.players.dom().len() >= 2,
        },
{
    match zzz.winner() {
        Ok((pid, _)) => Standing::Concluded(Event::GameConcluded(GameConcluded { pid })),
        Err(GameWinnerError::EmptyLobby) => Standing::Abandoned,
        Err(GameWinnerError::MorePlayers) => Standing::Undecided,
    }
}

/// The response put in the place of the expected player's when the deadline
/// has passed: it eliminates them as if they had named themselves.
pub fn forced_response(expected: &GameExpected) -> (response: PlayerResponds)
    ensures
        response == forfeit_of(*expected),
{
    PlayerResponds { pid: expected.next, next: expected.next, action: expected.action }
}

/// Applies what a wait ended with to the game and to the round counter.
///
/// A closed queue stops the loop and changes nothing. A passed deadline
/// counts as the forced response of the expected player. The response is
/// then judged by the game: from nobody in the game, it is ignored and the
/// wait goes on until the deadline of the announcement, or, if the deadline
/// has passed, the round is over; a turn passed on ends the round and adds
/// one to the counter; an elimination is announced, ends the round and sets
/// the counter to zero.
pub fn resolve(zzz: &mut ZipZapZop, round: &mut u32, expected: &GameExpected, awaited: Awaited) -> (next:
    RoundStep)
    ensures
        next == step_of(old(zzz)@, *expected, awaited),
        *final(round) == round_of(old(zzz)@, *old(round), *expected, awaited),
        match response_of(*expected, awaited) {
            None => final(zzz)@ == old(zzz)@,
            Some(response) => old(zzz)@.follows(response, final(zzz)@),
        },
{
    let response = match awaited {
        Awaited::Responded(response) => response,
        Awaited::TimedOut => forced_response(expected),
        Awaited::Closed => {
            return RoundStep::Stop;
        },
    };
    let pid = response.pid;
    match zzz.tick(response) {
        TickResult::NoOp => match awaited {
            Awaited::TimedOut => RoundStep::NextRound,
            _ => RoundStep::KeepWaiting(expected.deadline),
        },
        TickResult::Proceed => {
            if *round < u32::MAX {
                *round = *round + 1;
            }
            RoundStep::NextRound
        },
        TickResult::Eliminated(_) => {
            *round = 0;
            RoundStep::Announce(Event::GameEliminated(GameEliminated { pid }))
        },
    }
}

} // verus!
