//! The two sides of the game.

use std::ops::Not;
use vstd::prelude::*;

verus! {

/// One of the two participants. An empty cell is the absence of a player,
/// never a third value.
#[derive(Clone, Copy, Debug, PartialEq, Eq, Hash, Structural)]
pub enum Player {
    Nought,
    Cross,
}

impl Player {
    /// The opponent of `self`.
    pub open spec fn other(self) -> Player {
        match self {
            Player::Nought => Player::Cross,
            Player::Cross => Player::Nought,
        }
    }

    /// The opponent of `self`.
    pub fn opponent(self) -> (r: Player)
        ensures
            r == self.other(),
            r != self,
    {
        self.not()
    }
}

impl vstd::std_specs::ops::NotSpecImpl for Player {
    open spec fn obeys_not_spec() -> bool {
        true
    }

    open spec fn not_req(self) -> bool {
        true
    }

    open spec fn not_spec(self) -> Player {
        self.other()
    }
}

impl Not for Player {
    type Output = Player;

    fn not(self) -> (r: Player) {
        match self {
            Player::Nought => Player::Cross,
            Player::Cross => Player::Nought,
        }
    }
}

/// Taking the opponent twice gives the player back, and the opponent is
/// never the player itself.
pub proof fn other_is_involution(p: Player)
    ensures
        p.other().other() == p,
        p.other() != p,
{
}

} // verus!
