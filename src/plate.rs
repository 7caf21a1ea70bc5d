use vstd::prelude::*;

use crate::coord::{index_of, Coord};
use crate::error::P4Error;
use crate::pilier::{Pillar, Plane};
use crate::player::PlayerID;
use itertools::Itertools;

verus! {

/// The two ways of drawing the grid: pillar by pillar, or level by level.
#[derive(Clone, Copy, Debug, PartialEq, Eq, Structural)]
pub enum TypeOfDisplay {
    Arthur,
    Victor,
}

/// Whether a preview square is drawn or wiped.
#[derive(Clone, Copy, Debug, PartialEq, Eq, Structural)]
pub enum PreviewAction {
    Add,
    Remove,
}

/// Where a preview square goes on the screen, and what it shows: the highlight
/// (`None`) or the mark that the slot holds (`Some`).
#[derive(Clone, Copy, Debug, PartialEq, Eq, Structural)]
pub struct PreviewSquare {
    pub x: u16,
    pub y: u16,
    pub paint: Option<PlayerID>,
}

/// The grid: sixteen pillars, by cell index.
#[derive(Clone, Copy)]
pub struct Plate {
    data: [Pillar; 16],
    pub type_of_display: TypeOfDisplay,
}

impl TypeOfDisplay {
    pub open spec fn switched(self) -> TypeOfDisplay {
        match self {
            TypeOfDisplay::Arthur => TypeOfDisplay::Victor,
            TypeOfDisplay::Victor => TypeOfDisplay::Arthur,
        }
    }

    fn switch(&self) -> (r: TypeOfDisplay)
        ensures
            r == self.switched(),
    {
        match self {
            TypeOfDisplay::Arthur => TypeOfDisplay::Victor,
            TypeOfDisplay::Victor => TypeOfDisplay::Arthur,
        }
    }
}

/// The error of a drop into the full pillar `i`, naming that pillar by letter and digit.
pub open spec fn overfilled_at(e: P4Error, i: int) -> bool {
    e matches P4Error::OverFilledPillar(Some(c)) && c.number_spec() < 4 && index_of(
        c.letter_spec(),
        c.number_spec(),
    ) == i
}

/// Four marks that are the same mark of a player.
pub open spec fn four_alike(a: PlayerID, b: PlayerID, c: PlayerID, d: PlayerID) -> bool {
    a != PlayerID::Empty && a == b && b == c && c == d
}

/// Height of the `k`-th cell of a line under pattern `pat`: rising (0), falling (1),
/// or flat at height `pat - 2` (2 to 5).
pub open spec fn pattern_height(pat: int, k: int) -> int {
    if pat == 0 {
        k
    } else if pat == 1 {
        3 - k
    } else {
        pat - 2
    }
}

/// Screen position of the preview of a slot at column `x`, row `y` and height `h`.
pub open spec fn preview_spot(display: TypeOfDisplay, x: int, y: int, h: int) -> (int, int) {
    match display {
        TypeOfDisplay::Arthur => (x * 3, 1 + y * 6 + (3 - h)),
        TypeOfDisplay::Victor => (x * 2 + 2, 1 + y + 6 * (3 - h)),
    }
}

/// Relies on itertools' `tuple_windows`: the pairs of neighbours of a sequence, in order.
#[verifier::external_body]
fn neighbour_pairs(marks: &Vec<PlayerID>) -> (r: Vec<(PlayerID, PlayerID)>)
    ensures
        r@.len() == if marks@.len() == 0 { 0 } else { marks@.len() - 1 },
        forall|i: int| 0 <= i < r@.len() ==> #[trigger] r@[i] == (marks@[i], marks@[i + 1]),
{
    marks.iter().cloned().tuple_windows::<(PlayerID, PlayerID)>().collect()
}

/// Every mark equals the next one and none is empty.
pub open spec fn all_linked(marks: Seq<PlayerID>) -> bool {
    forall|i: int|
        0 <= i < marks.len() - 1 ==> (marks[i] == #[trigger] marks[i + 1] && marks[i]
            != PlayerID::Empty)
}

/// Every mark equals the next one and none is empty.
pub fn all_elements_identical(marks: &Vec<PlayerID>) -> (r: bool)
    ensures
        r == all_linked(marks@),
{
    let pairs = neighbour_pairs(marks);
    let mut i: usize = 0;
    while i < pairs.len()
        invariant
            0 <= i <= pairs@.len(),
            pairs@.len() == if marks@.len() == 0 { 0 } else { marks@.len() - 1 },
            forall|k: int| 0 <= k < pairs@.len() ==> #[trigger] pairs@[k] == (marks@[k], marks@[k + 1]),
            forall|k: int|
                0 <= k < i ==> marks@[k] == #[trigger] marks@[k + 1] && marks@[k] != PlayerID::Empty,
        decreases pairs@.len() - i,
    {
        let (one, two) = pairs[i];
        assert(pairs@[i as int] == (marks@[i as int], marks@[i + 1]));
        if !(one == two && one != PlayerID::Empty) {
            assert(!(marks@[i as int] == marks@[i + 1] && marks@[i as int] != PlayerID::Empty));
            assert(!all_linked(marks@));
            return false;
        }
        i += 1;
    }
    assert forall|k: int| 0 <= k < marks@.len() - 1 implies marks@[k] == #[trigger] marks@[k + 1]
        && marks@[k] != PlayerID::Empty by {
        assert(i == pairs@.len());
        assert(k < i);
        assert(marks@[k] == marks@[k + 1] && marks@[k] != PlayerID::Empty);
    }
    assert(all_linked(marks@));
    true
}

/// Height of the `k`-th cell of a line under pattern `pat`.
fn win_combination(pat: usize) -> (r: [usize; 4])
    requires
        pat < 6,
    ensures
        forall|k: int| 0 <= k < 4 ==> #[trigger] r[k] == pattern_height(pat as int, k) && r[k] < 4,
{
    if pat == 0 {
        [0, 1, 2, 3]
    } else if pat == 1 {
        [3, 2, 1, 0]
    } else {
        let h = pat - 2;
        [h, h, h, h]
    }
}

impl Plate {
    pub closed spec fn pillar(&self, i: int) -> Pillar {
        self.data[i]
    }

    /// The drawing mode in force.
    pub closed spec fn display(&self) -> TypeOfDisplay {
        self.type_of_display
    }

    pub open spec fn wf(&self) -> bool {
        forall|i: int| 0 <= i < 16 ==> (#[trigger] self.pillar(i)).wf()
    }

    /// The mark at height `h` of pillar `p`.
    pub open spec fn mark(&self, p: int, h: int) -> PlayerID {
        self.pillar(p).slots()[h]
    }

    /// The four cells of pillars `p0` to `p3`, at the heights of pattern `pat`, hold
    /// one player's mark.
    pub open spec fn line_wins(&self, p0: int, p1: int, p2: int, p3: int, pat: int) -> bool {
        four_alike(
            self.mark(p0, pattern_height(pat, 0)),
            self.mark(p1, pattern_height(pat, 1)),
            self.mark(p2, pattern_height(pat, 2)),
            self.mark(p3, pattern_height(pat, 3)),
        )
    }

    /// Pillar `p` holds four marks of one player.
    pub open spec fn vertical_win(&self, p: int) -> bool {
        self.line_wins(p, p, p, p, 0)
    }

    /// Pillars `4x` to `4x + 3` win under pattern `pat`.
    pub open spec fn x_line_win(&self, x: int, pat: int) -> bool {
        self.line_wins(4 * x, 4 * x + 1, 4 * x + 2, 4 * x + 3, pat)
    }

    /// Pillars `y`, `y + 4`, `y + 8` and `y + 12` win under pattern `pat`.
    pub open spec fn y_line_win(&self, y: int, pat: int) -> bool {
        self.line_wins(y, y + 4, y + 8, y + 12, pat)
    }

    /// Pillars 0, 5, 10 and 15 win under pattern `pat`.
    pub open spec fn first_diagonal_win(&self, pat: int) -> bool {
        self.line_wins(0, 5, 10, 15, pat)
    }

    /// Pillars 3, 6, 9 and 12 win under pattern `pat`.
    pub open spec fn second_diagonal_win(&self, pat: int) -> bool {
        self.line_wins(3, 6, 9, 12, pat)
    }

    /// Some line of the grid holds four marks of one player.
    pub open spec fn has_win(&self) -> bool {
        ||| exists|p: int| 0 <= p < 16 && #[trigger] self.vertical_win(p)
        ||| exists|x: int, pat: int| 0 <= x < 4 && 0 <= pat < 6 && #[trigger] self.x_line_win(x, pat)
        ||| exists|y: int, pat: int| 0 <= y < 4 && 0 <= pat < 6 && #[trigger] self.y_line_win(y, pat)
        ||| exists|pat: int| 0 <= pat < 6 && #[trigger] self.first_diagonal_win(pat)
        ||| exists|pat: int| 0 <= pat < 6 && #[trigger] self.second_diagonal_win(pat)
    }

    /// Marks held by pillars `0` to `n - 1`.
    pub open spec fn placed_upto(&self, n: int) -> int
        decreases n,
    {
        if n <= 0 {
            0
        } else {
            self.placed_upto(n - 1) + self.pillar(n - 1).level()
        }
    }

    /// Marks on the grid.
    pub open spec fn placed(&self) -> int {
        self.placed_upto(16)
    }

    /// Some pillar is not full.
    pub open spec fn has_room(&self) -> bool {
        exists|i: int| 0 <= i < 16 && !(#[trigger] self.pillar(i)).full()
    }
}

/// The marks of four pillars, each at the height that pattern `pat` gives its place.
pub open spec fn line_marks_alike(line: [Pillar; 4], pat: int) -> bool {
    four_alike(
        line[0].slots()[pattern_height(pat, 0)],
        line[1].slots()[pattern_height(pat, 1)],
        line[2].slots()[pattern_height(pat, 2)],
        line[3].slots()[pattern_height(pat, 3)],
    )
}

/// Whether the marks of a line of four pillars, read at the heights of pattern
/// `pat`, are one player's.
fn check_line(line: &[Pillar; 4], pat: usize) -> (r: bool)
    requires
        pat < 6,
    ensures
        r == line_marks_alike(*line, pat as int),
{
    let h = win_combination(pat);
    assert(h[0] < 4 && h[1] < 4 && h[2] < 4 && h[3] < 4);
    let marks = vec![
        line[0].get_player(h[0]),
        line[1].get_player(h[1]),
        line[2].get_player(h[2]),
        line[3].get_player(h[3]),
    ];
    let r = all_elements_identical(&marks);
    assert(marks@[0int + 1] == marks@[1] && marks@[1int + 1] == marks@[2] && marks@[2int + 1] == marks@[3]);
    r
}

/// The two families of straight lines across the pillar grid.
#[derive(Clone, Copy, PartialEq, Eq, Structural)]
enum Axis {
    X,
    Y,
}

impl Plate {
    /// Line `i` of family `axis` wins under pattern `pat`.
    spec fn axis_win(&self, axis: Axis, i: int, pat: int) -> bool {
        match axis {
            Axis::X => self.x_line_win(i, pat),
            Axis::Y => self.y_line_win(i, pat),
        }
    }

    pub fn switch_view(&mut self)
        ensures
            final(self).display() == old(self).display().switched(),
            forall|i: int| 0 <= i < 16 ==> #[trigger] final(self).pillar(i) == old(self).pillar(i),
    {
        self.type_of_display = self.type_of_display.switch();
    }

    /// The marks at height `n` of all the pillars, by cell index.
    pub fn get_plane(&self, n: u8) -> (r: Plane)
        requires
            self.wf(),
            n < 4,
        ensures
            forall|i: int| 0 <= i < 16 ==> #[trigger] r.data[i] == self.mark(i, n as int),
    {
        let mut res = [PlayerID::Empty;16];
        let mut i: usize = 0;
        while i < 16
            invariant
                i <= 16,
                n < 4,
                forall|j: int| 0 <= j < i ==> #[trigger] res[j] == self.mark(j, n as int),
            decreases 16 - i,
        {
            res[i] = self.data[i].get_player(n as usize);
            i += 1;
        }
        Plane { data: res }
    }

    /// The pillar named.
    pub fn get_coord(&self, nco: &impl Coord) -> (r: &Pillar)
        requires
            nco.is_cell(),
        ensures
            *r == self.pillar(nco.cell_index()),
    {
        &self.data[nco.to_num() as usize]
    }

    fn get_pion(&self, nco: &impl Coord, height: usize) -> (r: PlayerID)
        requires
            nco.is_cell(),
            height < 4,
        ensures
            r == self.mark(nco.cell_index(), height as int),
    {
        self.get_coord(nco).get_player(height)
    }

    /// A mark can still be dropped into the pillar named.
    pub fn playable(&self, nco: impl Coord + Clone) -> (r: bool)
        requires
            nco.is_cell(),
        ensures
            r == !self.pillar(nco.cell_index()).full(),
    {
        !self.get_coord(&nco).is_full()
    }

    /// Some pillar can still take a mark.
    pub fn has_playable_pillar(&self) -> (r: bool)
        ensures
            r == self.has_room(),
    {
        let mut i: usize = 0;
        while i < 16
            invariant
                i <= 16,
                forall|j: int| 0 <= j < i ==> (#[trigger] self.pillar(j)).full(),
            decreases 16 - i,
        {
            if !self.data[i].is_full() {
                assert(!self.pillar(i as int).full());
                return true;
            }
            i += 1;
        }
        false
    }

    /// Drops mark `pl` into the pillar named: the one change that a game makes to the grid.
    pub fn add_player(&mut self, nco: impl Coord + Clone, pl: PlayerID) -> (r: Result<(), P4Error>)
        requires
            old(self).wf(),
            nco.is_cell(),
            pl != PlayerID::Empty,
        ensures
            final(self).wf(),
            final(self).display() == old(self).display(),
            old(self).pillar(nco.cell_index()).full() ==> (r matches Err(e) && overfilled_at(
                e,
                nco.cell_index(),
            )) && *final(self) == *old(self),
            !old(self).pillar(nco.cell_index()).full() ==> r is Ok && final(self).pillar(
                nco.cell_index(),
            )@ == old(self).pillar(nco.cell_index())@.push(pl) && final(self).pillar(
                nco.cell_index(),
            ).level() == old(self).pillar(nco.cell_index()).level() + 1 && final(self).pillar(
                nco.cell_index(),
            ).slots() == old(self).pillar(nco.cell_index()).slots().update(
                old(self).pillar(nco.cell_index()).level(),
                pl,
            ),
            forall|j: int|
                0 <= j < 16 && j != nco.cell_index() ==> #[trigger] final(self).pillar(j) == old(
                    self,
                ).pillar(j),
    {
        let i = nco.to_num() as usize;
        if self.data[i].is_full() {
            return Err(P4Error::OverFilledPillar(Some(nco.as_letter_coord())));
        }
        let mut pillar = self.data[i];
        assert(self.pillar(i as int).wf());
        let res = pillar.add_player(pl);
        self.data[i] = pillar;
        assert forall|j: int| 0 <= j < 16 implies (#[trigger] self.pillar(j)).wf() by {
            if j != i {
                assert(old(self).pillar(j).wf());
            }
        }
        res
    }

    /// Where the preview of the next drop into the pillar named goes, and what it
    /// shows: the highlight to add one, the slot's own content to remove it.
    pub fn preview(&self, coords_preview: impl Coord + Clone, action: PreviewAction) -> (r: Result<
        PreviewSquare,
        P4Error,
    >)
        requires
            self.wf(),
            coords_preview.is_cell(),
        ensures
            self.pillar(coords_preview.cell_index()).full() ==> (r matches Err(e) && overfilled_at(
                e,
                coords_preview.cell_index(),
            )),
            !self.pillar(coords_preview.cell_index()).full() ==> (r matches Ok(sq) && sq.x
                == preview_spot(
                self.display(),
                coords_preview.cell_index() % 4,
                coords_preview.cell_index() / 4,
                self.pillar(coords_preview.cell_index()).level(),
            ).0 && sq.y == preview_spot(
                self.display(),
                coords_preview.cell_index() % 4,
                coords_preview.cell_index() / 4,
                self.pillar(coords_preview.cell_index()).level(),
            ).1 && sq.paint == match action {
                PreviewAction::Add => None,
                PreviewAction::Remove => Some(
                    self.mark(
                        coords_preview.cell_index(),
                        self.pillar(coords_preview.cell_index()).level(),
                    ),
                ),
            }),
    {
        let height: u16 = self.get_coord(&coords_preview).get_height() as u16;
        if height >= 4 {
            return Err(P4Error::OverFilledPillar(Some(coords_preview.as_letter_coord())));
        }
        let (x_prev, y_prev) = coords_preview.to_xy_coord();
        let (x_prev, y_prev) = match self.type_of_display {
            TypeOfDisplay::Arthur => (x_prev * 3, y_prev * 6 + (3 - height)),
            TypeOfDisplay::Victor => (x_prev * 2 + 2, y_prev + 6 * (3 - height)),
        };
        let x: u16 = x_prev;
        let y: u16 = 1 + y_prev;
        let paint = match action {
            PreviewAction::Add => None,
            PreviewAction::Remove => Some(self.get_pion(&coords_preview, height as usize)),
        };
        Ok(PreviewSquare { x, y, paint })
    }
}

// Checking for a winning line.
impl Plate {
    /// Pillars `4x` to `4x + 3`.
    fn get_line_x_of_pillar(&self, x: usize) -> (r: [Pillar; 4])
        requires
            x < 4,
        ensures
            forall|k: int| 0 <= k < 4 ==> #[trigger] r[k] == self.pillar(4 * x + k),
    {
        [self.data[4 * x], self.data[4 * x + 1], self.data[4 * x + 2], self.data[4 * x + 3]]
    }

    /// Pillars `y`, `y + 4`, `y + 8` and `y + 12`.
    fn get_line_y_of_pillar(&self, y: usize) -> (r: [Pillar; 4])
        requires
            y < 4,
        ensures
            forall|k: int| 0 <= k < 4 ==> #[trigger] r[k] == self.pillar(y + 4 * k),
    {
        [self.data[y], self.data[y + 4], self.data[y + 8], self.data[y + 12]]
    }

    /// Pillars 0, 5, 10 and 15.
    fn get_first_diagonal(&self) -> (r: [Pillar; 4])
        ensures
            forall|k: int| 0 <= k < 4 ==> #[trigger] r[k] == self.pillar(5 * k),
    {
        [self.data[0], self.data[5], self.data[10], self.data[15]]
    }

    /// Pillars 3, 6, 9 and 12.
    fn get_second_diagonal(&self) -> (r: [Pillar; 4])
        ensures
            forall|k: int| 0 <= k < 4 ==> #[trigger] r[k] == self.pillar(3 + 3 * k),
    {
        [self.data[3], self.data[6], self.data[9], self.data[12]]
    }

    /// Whether one of the four lines of family `axis` wins under one of the six patterns.
    fn check_4_origin(&self, axis: Axis) -> (r: bool)
        ensures
            r == exists|i: int, pat: int|
                0 <= i < 4 && 0 <= pat < 6 && #[trigger] self.axis_win(axis, i, pat),
    {
        let mut res: bool = false;
        let mut i: usize = 0;
        while i < 4
            invariant
                i <= 4,
                res == exists|j: int, pat: int|
                    0 <= j < i && 0 <= pat < 6 && #[trigger] self.axis_win(axis, j, pat),
            decreases 4 - i,
        {
            let line = match axis {
                Axis::X => self.get_line_x_of_pillar(i),
                Axis::Y => self.get_line_y_of_pillar(i),
            };
            let mut pat: usize = 0;
            while pat < 6
                invariant
                    i < 4,
                    pat <= 6,
                    forall|k: int|
                        0 <= k < 4 ==> #[trigger] line[k] == match axis {
                            Axis::X => self.pillar(4 * i + k),
                            Axis::Y => self.pillar(i + 4 * k),
                        },
                    res == ((exists|j: int, q: int|
                        0 <= j < i && 0 <= q < 6 && #[trigger] self.axis_win(axis, j, q)) || (
                    exists|q: int| 0 <= q < pat && #[trigger] self.axis_win(axis, i as int, q))),
                decreases 6 - pat,
            {
                let found = check_line(&line, pat);
                assert(line[0] == line[0int] && line[1] == line[1int]);
                assert(found == self.axis_win(axis, i as int, pat as int));
                if found {
                    res = true;
                }
                pat += 1;
            }
            i += 1;
        }
        res
    }

    /// Whether the diagonal given wins under one of the six patterns.
    fn check_diag(&self, second: bool) -> (r: bool)
        ensures
            r == exists|pat: int|
                0 <= pat < 6 && #[trigger] self.diagonal_win(second, pat),
    {
        let line = if second {
            self.get_second_diagonal()
        } else {
            self.get_first_diagonal()
        };
        let mut res: bool = false;
        let mut pat: usize = 0;
        while pat < 6
            invariant
                pat <= 6,
                forall|k: int|
                    0 <= k < 4 ==> #[trigger] line[k] == if second {
                        self.pillar(3 + 3 * k)
                    } else {
                        self.pillar(5 * k)
                    },
                res == exists|q: int| 0 <= q < pat && #[trigger] self.diagonal_win(second, q),
            decreases 6 - pat,
        {
            let found = check_line(&line, pat);
            assert(found == self.diagonal_win(second, pat as int));
            if found {
                res = true;
            }
            pat += 1;
        }
        res
    }

    /// Diagonal `second` (3 to 12) or first (0 to 15) wins under pattern `pat`.
    spec fn diagonal_win(&self, second: bool, pat: int) -> bool {
        if second {
            self.second_diagonal_win(pat)
        } else {
            self.first_diagonal_win(pat)
        }
    }

    /// Whether some line of the grid holds four marks of one player.
    pub fn check_win(&self) -> (r: bool)
        ensures
            r == self.has_win(),
    {
        let mut i: usize = 0;
        while i < 16
            invariant
                i <= 16,
                forall|j: int| 0 <= j < i ==> !#[trigger] self.vertical_win(j),
            decreases 16 - i,
        {
            let p = &self.data[i];
            let marks = vec![p.get_player(0), p.get_player(1), p.get_player(2), p.get_player(3)];
            let alike = all_elements_identical(&marks);
            assert(marks@[0int + 1] == marks@[1] && marks@[1int + 1] == marks@[2] && marks@[2int
                + 1] == marks@[3]);
            assert(alike == self.vertical_win(i as int));
            if alike {
                return true;
            }
            i += 1;
        }
        let x = self.check_4_origin(Axis::X);
        let y = self.check_4_origin(Axis::Y);
        let d1 = self.check_diag(false);
        let d2 = self.check_diag(true);
        proof {
            if x {
                let (j, q) = choose|j: int, q: int|
                    0 <= j < 4 && 0 <= q < 6 && #[trigger] self.axis_win(Axis::X, j, q);
                assert(self.x_line_win(j, q));
            }
            if y {
                let (j, q) = choose|j: int, q: int|
                    0 <= j < 4 && 0 <= q < 6 && #[trigger] self.axis_win(Axis::Y, j, q);
                assert(self.y_line_win(j, q));
            }
            if d1 {
                let q = choose|q: int| 0 <= q < 6 && #[trigger] self.diagonal_win(false, q);
                assert(self.first_diagonal_win(q));
            }
            if d2 {
                let q = choose|q: int| 0 <= q < 6 && #[trigger] self.diagonal_win(true, q);
                assert(self.second_diagonal_win(q));
            }
            assert forall|j: int, q: int| 0 <= j < 4 && 0 <= q < 6 implies !#[trigger] self.x_line_win(j, q) || x by {
                assert(self.axis_win(Axis::X, j, q) == self.x_line_win(j, q));
            }
            assert forall|j: int, q: int| 0 <= j < 4 && 0 <= q < 6 implies !#[trigger] self.y_line_win(j, q) || y by {
                assert(self.axis_win(Axis::Y, j, q) == self.y_line_win(j, q));
            }
            assert forall|q: int| 0 <= q < 6 implies !#[trigger] self.first_diagonal_win(q) || d1 by {
                assert(self.diagonal_win(false, q) == self.first_diagonal_win(q));
            }
            assert forall|q: int| 0 <= q < 6 implies !#[trigger] self.second_diagonal_win(q) || d2 by {
                assert(self.diagonal_win(true, q) == self.second_diagonal_win(q));
            }
        }
        x || y || d1 || d2
    }
}

/// The marks of pillars `0` to `n - 1` number at least the levels of four
/// distinct pillars among them.
proof fn lemma_placed_at_least(plate: Plate, n: int, a: int, b: int, c: int, d: int)
    requires
        plate.wf(),
        0 <= n <= 16,
        a != b && a != c && a != d && b != c && b != d && c != d,
    ensures
        plate.placed_upto(n) >= (if 0 <= a < n { plate.pillar(a).level() } else { 0 }) + (if 0
            <= b < n {
            plate.pillar(b).level()
        } else {
            0
        }) + (if 0 <= c < n { plate.pillar(c).level() } else { 0 }) + (if 0 <= d < n {
            plate.pillar(d).level()
        } else {
            0
        }),
    decreases n,
{
    if n > 0 {
        lemma_placed_at_least(plate, n - 1, a, b, c, d);
        assert(plate.pillar(n - 1).wf());
    }
}

/// A pillar whose slot `h` holds a mark holds more than `h` marks.
proof fn lemma_marked_below_level(plate: Plate, p: int, h: int)
    requires
        plate.wf(),
        0 <= p < 16,
        0 <= h < 4,
        plate.mark(p, h) != PlayerID::Empty,
    ensures
        plate.pillar(p).level() > h,
{
    assert(plate.pillar(p).wf());
}

/// No line wins on a grid that holds fewer than four marks, the empty grid among them.
pub proof fn lemma_no_win_below_four_marks(plate: Plate)
    requires
        plate.wf(),
        plate.placed() < 4,
    ensures
        !plate.has_win(),
{
    if exists|p: int| 0 <= p < 16 && #[trigger] plate.vertical_win(p) {
        let p = choose|p: int| 0 <= p < 16 && #[trigger] plate.vertical_win(p);
        lemma_marked_below_level(plate, p, 3);
        lemma_placed_at_least(plate, 16, p, 16, 17, 18);
    }
    if exists|x: int, pat: int| 0 <= x < 4 && 0 <= pat < 6 && #[trigger] plate.x_line_win(x, pat) {
        let (x, pat) = choose|x: int, pat: int|
            0 <= x < 4 && 0 <= pat < 6 && #[trigger] plate.x_line_win(x, pat);
        lemma_four_marked(plate, 4 * x, 4 * x + 1, 4 * x + 2, 4 * x + 3, pat);
    }
    if exists|y: int, pat: int| 0 <= y < 4 && 0 <= pat < 6 && #[trigger] plate.y_line_win(y, pat) {
        let (y, pat) = choose|y: int, pat: int|
            0 <= y < 4 && 0 <= pat < 6 && #[trigger] plate.y_line_win(y, pat);
        lemma_four_marked(plate, y, y + 4, y + 8, y + 12, pat);
    }
    if exists|pat: int| 0 <= pat < 6 && #[trigger] plate.first_diagonal_win(pat) {
        let pat = choose|pat: int| 0 <= pat < 6 && #[trigger] plate.first_diagonal_win(pat);
        lemma_four_marked(plate, 0, 5, 10, 15, pat);
    }
    if exists|pat: int| 0 <= pat < 6 && #[trigger] plate.second_diagonal_win(pat) {
        let pat = choose|pat: int| 0 <= pat < 6 && #[trigger] plate.second_diagonal_win(pat);
        lemma_four_marked(plate, 3, 6, 9, 12, pat);
    }
}

/// A winning line across four distinct pillars needs four marks on the grid.
proof fn lemma_four_marked(plate: Plate, a: int, b: int, c: int, d: int, pat: int)
    requires
        plate.wf(),
        0 <= a < 16 && 0 <= b < 16 && 0 <= c < 16 && 0 <= d < 16,
        a != b && a != c && a != d && b != c && b != d && c != d,
        0 <= pat < 6,
        plate.line_wins(a, b, c, d, pat),
    ensures
        plate.placed() >= 4,
{
    lemma_marked_below_level(plate, a, pattern_height(pat, 0));
    lemma_marked_below_level(plate, b, pattern_height(pat, 1));
    lemma_marked_below_level(plate, c, pattern_height(pat, 2));
    lemma_marked_below_level(plate, d, pattern_height(pat, 3));
    lemma_placed_at_least(plate, 16, a, b, c, d);
}

/// The empty grid holds no mark.
pub proof fn lemma_empty_plate_placed(plate: Plate)
    requires
        forall|i: int| 0 <= i < 16 ==> (#[trigger] plate.pillar(i)).level() == 0,
    ensures
        plate.placed() == 0,
{
    assert forall|n: int| 0 <= n <= 16 implies #[trigger] plate.placed_upto(n) == 0 by {
        lemma_placed_zero(plate, n);
    }
}

proof fn lemma_placed_zero(plate: Plate, n: int)
    requires
        0 <= n <= 16,
        forall|i: int| 0 <= i < 16 ==> (#[trigger] plate.pillar(i)).level() == 0,
    ensures
        plate.placed_upto(n) == 0,
    decreases n,
{
    if n > 0 {
        lemma_placed_zero(plate, n - 1);
        assert(plate.pillar(n - 1).level() == 0);
    }
}

/// After a drop into pillar `c`, every slot that held a mark holds the same mark.
proof fn lemma_marks_kept(before: Plate, after: Plate, c: int, p: int, h: int)
    requires
        before.wf(),
        0 <= c < 16,
        !before.pillar(c).full(),
        forall|h: int|
            0 <= h < 4 && h != before.pillar(c).level() ==> #[trigger] after.mark(c, h)
                == before.mark(c, h),
        forall|j: int| 0 <= j < 16 && j != c ==> #[trigger] after.pillar(j) == before.pillar(j),
        0 <= p < 16,
        0 <= h < 4,
        before.mark(p, h) != PlayerID::Empty,
    ensures
        after.mark(p, h) == before.mark(p, h),
{
    lemma_marked_below_level(before, p, h);
}

/// A line that wins before a drop into pillar `c` still wins after it.
proof fn lemma_line_kept(
    before: Plate,
    after: Plate,
    c: int,
    a: int,
    b: int,
    d: int,
    e: int,
    pat: int,
)
    requires
        before.wf(),
        0 <= c < 16,
        !before.pillar(c).full(),
        forall|h: int|
            0 <= h < 4 && h != before.pillar(c).level() ==> #[trigger] after.mark(c, h)
                == before.mark(c, h),
        forall|j: int| 0 <= j < 16 && j != c ==> #[trigger] after.pillar(j) == before.pillar(j),
        0 <= a < 16 && 0 <= b < 16 && 0 <= d < 16 && 0 <= e < 16,
        0 <= pat < 6,
        before.line_wins(a, b, d, e, pat),
    ensures
        after.line_wins(a, b, d, e, pat),
{
    lemma_marks_kept(before, after, c, a, pattern_height(pat, 0));
    lemma_marks_kept(before, after, c, b, pattern_height(pat, 1));
    lemma_marks_kept(before, after, c, d, pattern_height(pat, 2));
    lemma_marks_kept(before, after, c, e, pattern_height(pat, 3));
}

/// Marks are never taken off the grid: a grid that holds a winning line still
/// holds one after a mark is dropped into a pillar `c` that had room.
pub proof fn lemma_win_persists(before: Plate, after: Plate, c: int, m: PlayerID)
    requires
        before.wf(),
        0 <= c < 16,
        !before.pillar(c).full(),
        after.pillar(c).slots() == before.pillar(c).slots().update(before.pillar(c).level(), m),
        forall|j: int| 0 <= j < 16 && j != c ==> #[trigger] after.pillar(j) == before.pillar(j),
        before.has_win(),
    ensures
        after.has_win(),
{
    assert(before.pillar(c).wf());
    assert(after.pillar(c).slots()[before.pillar(c).level()] == m);
    if exists|p: int| 0 <= p < 16 && #[trigger] before.vertical_win(p) {
        let p = choose|p: int| 0 <= p < 16 && #[trigger] before.vertical_win(p);
        lemma_line_kept(before, after, c, p, p, p, p, 0);
        assert(after.vertical_win(p));
    } else if exists|x: int, pat: int| 0 <= x < 4 && 0 <= pat < 6 && #[trigger] before.x_line_win(x, pat) {
        let (x, pat) = choose|x: int, pat: int|
            0 <= x < 4 && 0 <= pat < 6 && #[trigger] before.x_line_win(x, pat);
        lemma_line_kept(before, after, c, 4 * x, 4 * x + 1, 4 * x + 2, 4 * x + 3, pat);
        assert(after.x_line_win(x, pat));
    } else if exists|y: int, pat: int| 0 <= y < 4 && 0 <= pat < 6 && #[trigger] before.y_line_win(y, pat) {
        let (y, pat) = choose|y: int, pat: int|
            0 <= y < 4 && 0 <= pat < 6 && #[trigger] before.y_line_win(y, pat);
        lemma_line_kept(before, after, c, y, y + 4, y + 8, y + 12, pat);
        assert(after.y_line_win(y, pat));
    } else if exists|pat: int| 0 <= pat < 6 && #[trigger] before.first_diagonal_win(pat) {
        let pat = choose|pat: int| 0 <= pat < 6 && #[trigger] before.first_diagonal_win(pat);
        lemma_line_kept(before, after, c, 0, 5, 10, 15, pat);
        assert(after.first_diagonal_win(pat));
    } else {
        let pat = choose|pat: int| 0 <= pat < 6 && #[trigger] before.second_diagonal_win(pat);
        lemma_line_kept(before, after, c, 3, 6, 9, 12, pat);
        assert(after.second_diagonal_win(pat));
    }
}

impl Default for Plate {
    fn default() -> (r: Self)
        ensures
            r.wf(),
            r.display() == TypeOfDisplay::Victor,
            forall|i: int| 0 <= i < 16 ==> (#[trigger] r.pillar(i)).level() == 0,
            forall|i: int| 0 <= i < 16 ==> (#[trigger] r.pillar(i))@ == Seq::<PlayerID>::empty(),
    {
        let p = Pillar::default();
        Plate {
            data: [p, p, p, p, p, p, p, p, p, p, p, p, p, p, p, p],
            type_of_display: TypeOfDisplay::Victor,
        }
    }
}

} // verus!
