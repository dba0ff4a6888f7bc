//! What a player sends during a game.

use vstd::prelude::*;

verus! {

/// The word a player says when passing the turn.
#[derive(Clone, Copy, Debug, PartialEq, Eq, Structural)]
pub enum PlayerAction {
    Zip,
    Zap,
    Zop,
}

impl PlayerAction {
    /// The word that follows this one in the cycle Zip, Zap, Zop, Zip.
    pub open spec fn successor(self) -> PlayerAction {
        match self {
            PlayerAction::Zip => PlayerAction::Zap,
            PlayerAction::Zap => PlayerAction::Zop,
            PlayerAction::Zop => PlayerAction::Zip,
        }
    }

    /// The word that follows this one in the cycle.
    pub fn next(self) -> (following: PlayerAction)
        ensures
            following == self.successor(),
    {
        match self {
            PlayerAction::Zip => PlayerAction::Zap,
            PlayerAction::Zap => PlayerAction::Zop,
            PlayerAction::Zop => PlayerAction::Zip,
        }
    }

    /// The cycle has period three and no shorter one: a word differs from its
    /// successor and from the successor of that, and the third successor is the
    /// word itself.
    pub proof fn lemma_cycle(self)
        ensures
            self.successor() != self,
            self.successor().successor() != self,
            self.successor().successor().successor() == self,
    {
    }
}

/// A player's response: who answers, whom they pass the turn to, and the word.
#[derive(Clone, Copy, Debug, PartialEq, Eq, Structural)]
pub struct PlayerResponds {
    /// The player who responds.
    pub pid: usize,
    /// The targeted next player in the game.
    pub next: usize,
    pub action: PlayerAction,
}

} // verus!
