use vstd::prelude::*;

verus! {

/// What a slot of the grid holds: a mark of one of the two players, or nothing.
#[derive(Clone, Copy, PartialEq, Eq, Debug, Structural)]
pub enum PlayerID {
    P1,
    P2,
    Empty,
}

impl Default for PlayerID {
    fn default() -> (r: Self)
        ensures
            r == PlayerID::Empty,
    {
        PlayerID::Empty
    }
}

impl PlayerID {
    /// The player whose turn comes after this one's.
    pub open spec fn other(self) -> PlayerID {
        match self {
            PlayerID::P1 => PlayerID::P2,
            PlayerID::P2 => PlayerID::P1,
            PlayerID::Empty => PlayerID::Empty,
        }
    }

    /// Hands the turn to the other player.
    pub fn joue(&mut self)
        requires
            *old(self) != PlayerID::Empty,
        ensures
            *final(self) == old(self).other(),
            *final(self) != PlayerID::Empty,
    {
        *self = match *self {
            PlayerID::P1 => PlayerID::P2,
            _ => PlayerID::P1,
        };
    }
}

} // verus!
