pub mod coord;
pub mod error;
pub mod input;
pub mod logic;
pub mod pilier;
pub mod plate;
pub mod player;

use vstd::prelude::*;

use crate::coord::Coord;
use crate::input::Input;
use crate::logic::{Human, RBot};
use crate::plate::Plate;
use crate::player::PlayerID;

verus! {

/// Who plays a side: a human at the keyboard or the random agent.
#[derive(Clone, Copy, Debug)]
pub enum Agent {
    Interactive(Human),
    Random(RBot),
}

/// A game: the grid, whose turn it is, and the two sides.
pub struct Game {
    plateau: Plate,
    next_player: PlayerID,
    player_one: Agent,
    player_two: Agent,
}

impl Game {
    pub closed spec fn plate_spec(&self) -> Plate {
        self.plateau
    }

    pub closed spec fn next_spec(&self) -> PlayerID {
        self.next_player
    }

    pub closed spec fn agent_spec(&self, p: PlayerID) -> Agent {
        if p == PlayerID::P2 {
            self.player_two
        } else {
            self.player_one
        }
    }

    /// The grid is well formed and the turn belongs to a player.
    pub open spec fn wf(&self) -> bool {
        self.plate_spec().wf() && self.next_spec() != PlayerID::Empty
    }

    /// A game on the empty grid, the first player to move.
    pub fn new(player_one: Agent, player_two: Agent) -> (r: Game)
        ensures
            r.wf(),
            r.next_spec() == PlayerID::P1,
            r.plate_spec().placed() == 0,
            !r.plate_spec().has_win(),
            r.agent_spec(PlayerID::P1) == player_one,
            r.agent_spec(PlayerID::P2) == player_two,
    {
        let plateau = Plate::default();
        proof {
            plate::lemma_empty_plate_placed(plateau);
            plate::lemma_no_win_below_four_marks(plateau);
        }
        Game { plateau, next_player: PlayerID::P1, player_one, player_two }
    }

    /// The side whose turn it is.
    pub fn get_player(&self) -> (r: &Agent)
        requires
            self.wf(),
        ensures
            *r == self.agent_spec(self.next_spec()),
    {
        match self.next_player {
            PlayerID::P2 => &self.player_two,
            _ => &self.player_one,
        }
    }

    pub fn plate(&self) -> (r: &Plate)
        ensures
            *r == self.plate_spec(),
    {
        &self.plateau
    }

    pub fn next_player(&self) -> (r: PlayerID)
        ensures
            r == self.next_spec(),
    {
        self.next_player
    }

    /// Toggles the drawing mode of the grid.
    pub fn switch_view(&mut self)
        ensures
            final(self).plate_spec().display() == old(self).plate_spec().display().switched(),
            forall|i: int|
                0 <= i < 16 ==> #[trigger] final(self).plate_spec().pillar(i) == old(
                    self,
                ).plate_spec().pillar(i),
            final(self).next_spec() == old(self).next_spec(),
            forall|p: PlayerID| #[trigger] final(self).agent_spec(p) == old(self).agent_spec(p),
    {
        self.plateau.switch_view();
    }

    /// Drops the mark of the player to move into the pillar chosen, then hands
    /// the turn over.
    pub fn play_input(&mut self, lc: &Input)
        requires
            old(self).wf(),
            lc.is_cell(),
            !old(self).plate_spec().pillar(lc.cell_index()).full(),
        ensures
            final(self).wf(),
            final(self).plate_spec().pillar(lc.cell_index())@ == old(self).plate_spec().pillar(
                lc.cell_index(),
            )@.push(old(self).next_spec()),
            final(self).plate_spec().pillar(lc.cell_index()).level() == old(
                self,
            ).plate_spec().pillar(lc.cell_index()).level() + 1,
            forall|j: int|
                0 <= j < 16 && j != lc.cell_index() ==> #[trigger] final(self).plate_spec().pillar(j)
                    == old(self).plate_spec().pillar(j),
            final(self).plate_spec().display() == old(self).plate_spec().display(),
            final(self).next_spec() == old(self).next_spec().other(),
            forall|p: PlayerID| #[trigger] final(self).agent_spec(p) == old(self).agent_spec(p),
    {
        let placed = self.plateau.add_player(*lc, self.next_player);
        assert(placed is Ok);
        self.next_player.joue();
    }

    /// Some line of the grid is won.
    pub fn win(&self) -> (r: bool)
        ensures
            r == self.plate_spec().has_win(),
    {
        self.plateau.check_win()
    }

    /// Closes the game: gives the player who was to move, who lost, and the one
    /// who moved last, who won, and leaves the turn with the winner.
    pub fn end(&mut self) -> (r: (PlayerID, PlayerID))
        requires
            old(self).wf(),
        ensures
            r == (old(self).next_spec(), old(self).next_spec().other()),
            final(self).next_spec() == old(self).next_spec().other(),
            final(self).plate_spec() == old(self).plate_spec(),
    {
        let loser = self.next_player;
        self.next_player.joue();
        (loser, self.next_player)
    }
}

pub fn add(left: usize, right: usize) -> (r: usize)
    requires
        left + right <= usize::MAX,
    ensures
        r == left + right,
{
    left + right
}

} // verus!
