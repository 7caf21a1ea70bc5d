use vstd::prelude::*;

verus! {

/// Column of a pillar on the grid, written as a letter.
#[derive(Clone, Copy, Debug, PartialEq, Eq, Structural)]
pub enum Letter {
    A,
    B,
    C,
    D,
}

impl Letter {
    /// Position of the letter in the alphabet of columns, from 0 to 3.
    pub open spec fn ordinal(self) -> int {
        match self {
            Letter::A => 0,
            Letter::B => 1,
            Letter::C => 2,
            Letter::D => 3,
        }
    }

    /// The letter at a given column; columns past 3 have none, and give `D`.
    pub open spec fn of_ordinal(n: int) -> Letter {
        if n == 0 {
            Letter::A
        } else if n == 1 {
            Letter::B
        } else if n == 2 {
            Letter::C
        } else {
            Letter::D
        }
    }

    /// The character that names the letter.
    pub open spec fn symbol(self) -> char {
        match self {
            Letter::A => 'A',
            Letter::B => 'B',
            Letter::C => 'C',
            Letter::D => 'D',
        }
    }

    pub fn from_ordinal(value: u8) -> (r: Letter)
        requires
            value < 4,
        ensures
            r.ordinal() == value,
            r == Letter::of_ordinal(value as int),
    {
        match value {
            0 => Letter::A,
            1 => Letter::B,
            2 => Letter::C,
            _ => Letter::D,
        }
    }

    pub fn to_ordinal(&self) -> (r: u8)
        ensures
            r == self.ordinal(),
    {
        match self {
            Letter::A => 0,
            Letter::B => 1,
            Letter::C => 2,
            Letter::D => 3,
        }
    }

    pub fn to_char(&self) -> (r: char)
        ensures
            r == self.symbol(),
    {
        match self {
            Letter::A => 'A',
            Letter::B => 'B',
            Letter::C => 'C',
            Letter::D => 'D',
        }
    }

    /// Reads a letter written alone as one of "A", "B", "C" or "D".
    pub fn parse(s: &str) -> (r: Result<Letter, ()>)
        ensures
            r matches Ok(l) ==> s@ == seq![l.symbol()],
            r is Err <==> !(exists|l: Letter| s@ == seq![l.symbol()]),
    {
        if s.unicode_len() != 1 {
            proof {
                assert forall|l: Letter| s@ != seq![l.symbol()] by {
                    assert(seq![l.symbol()].len() == 1);
                }
            }
            return Err(());
        }
        let c = s.get_char(0);
        let r = if c == 'A' {
            Ok(Letter::A)
        } else if c == 'B' {
            Ok(Letter::B)
        } else if c == 'C' {
            Ok(Letter::C)
        } else if c == 'D' {
            Ok(Letter::D)
        } else {
            Err(())
        };
        proof {
            assert(s@ =~= seq![c]);
            if let Ok(l) = r {
                assert(s@ == seq![l.symbol()]);
            } else {
                assert forall|l: Letter| s@ != seq![l.symbol()] by {
                    assert(seq![l.symbol()][0] == l.symbol());
                }
            }
        }
        r
    }
}

impl std::str::FromStr for Letter {
    type Err = ();

    fn from_str(s: &str) -> Result<Self, Self::Err> {
        Letter::parse(s)
    }
}

/// The column of a cell index.
pub open spec fn letter_of(i: int) -> Letter {
    Letter::of_ordinal(i % 4)
}

/// The cell index of a column and a row.
pub open spec fn index_of(letter: Letter, digit: int) -> int {
    digit * 4 + letter.ordinal()
}

/// Going from a cell index to its letter and digit and back gives the same index.
pub proof fn lemma_coordinate_round_trip(i: int)
    requires
        0 <= i < 16,
    ensures
        index_of(letter_of(i), i / 4) == i,
        letter_of(i).ordinal() == i % 4,
{
}

/// Any of the ways of naming one of the sixteen cells of the grid.
pub trait Coord {
    /// The value names a cell.
    spec fn is_cell(&self) -> bool;

    /// The linear index of the cell named, from 0 to 15.
    spec fn cell_index(&self) -> int;

    fn to_num(&self) -> (r: u8)
        requires
            self.is_cell(),
        ensures
            r == self.cell_index(),
            r < 16,
    ;

    fn to_xy_coord(&self) -> (r: (u16, u16))
        requires
            self.is_cell(),
        ensures
            0 <= self.cell_index() < 16,
            r.0 == self.cell_index() % 4,
            r.1 == self.cell_index() / 4,
    {
        let n = self.to_num() as u16;
        (n % 4, n / 4)
    }

    fn to_ln_coord(&self) -> (r: (Letter, u8))
        requires
            self.is_cell(),
        ensures
            r.0 == letter_of(self.cell_index()),
            r.1 == self.cell_index() / 4,
            r.1 < 4,
            index_of(r.0, r.1 as int) == self.cell_index(),
    {
        let n = self.to_num();
        let l = Letter::from_ordinal(n % 4);
        proof {
            lemma_coordinate_round_trip(n as int);
        }
        (l, n / 4)
    }

    fn as_letter_coord(&self) -> (r: LetterCoord)
        requires
            self.is_cell(),
        ensures
            r.number_spec() < 4,
            index_of(r.letter_spec(), r.number_spec()) == self.cell_index(),
    {
        let ln = self.to_ln_coord();
        proof {
            lemma_coordinate_round_trip(self.cell_index());
        }
        LetterCoord::from_ln(ln)
    }

    fn as_number_coord(&self) -> (r: NumberCoord)
        requires
            self.is_cell(),
        ensures
            r.value() == self.cell_index(),
    {
        let ln = self.to_ln_coord();
        proof {
            lemma_coordinate_round_trip(self.cell_index());
        }
        NumberCoord::from_ln(ln)
    }
}

/// A cell named by its letter (column) and its digit (row).
#[derive(Clone, Copy, Debug, PartialEq, Eq, Structural)]
pub struct LetterCoord {
    letter: Letter,
    number: u8,
}

/// A cell named by its linear index.
#[derive(Clone, Copy, Debug, PartialEq, Eq, Structural)]
pub struct NumberCoord {
    n: u8,
}

impl LetterCoord {
    pub closed spec fn letter_spec(&self) -> Letter {
        self.letter
    }

    pub closed spec fn number_spec(&self) -> int {
        self.number as int
    }

    pub fn from_ln(value: (Letter, u8)) -> (r: LetterCoord)
        requires
            value.1 < 4,
        ensures
            r.letter_spec() == value.0,
            r.number_spec() == value.1,
    {
        LetterCoord { letter: value.0, number: value.1 }
    }

    pub fn letter(&self) -> (r: Letter)
        ensures
            r == self.letter_spec(),
    {
        self.letter
    }

    pub fn number(&self) -> (r: u8)
        ensures
            r == self.number_spec(),
    {
        self.number
    }
}

impl Coord for LetterCoord {
    open spec fn is_cell(&self) -> bool {
        self.number_spec() < 4
    }

    open spec fn cell_index(&self) -> int {
        index_of(self.letter_spec(), self.number_spec())
    }

    fn to_num(&self) -> (r: u8) {
        let (l, n) = self.to_xy_coord();
        l as u8 + n as u8 * 4
    }

    fn to_xy_coord(&self) -> (r: (u16, u16)) {
        let l: u16 = self.letter.to_ordinal() as u16;
        (l, self.number as u16)
    }
}

impl NumberCoord {
    /// The linear index held.
    pub closed spec fn value(&self) -> int {
        self.n as int
    }

    pub fn new(n: u8) -> (r: NumberCoord)
        requires
            n < 16,
        ensures
            r.value() == n,
    {
        NumberCoord { n }
    }

    pub fn from_ln(value: (Letter, u8)) -> (r: NumberCoord)
        requires
            value.1 < 4,
        ensures
            r.value() == index_of(value.0, value.1 as int),
    {
        let li: u8 = value.0.to_ordinal();
        NumberCoord::new(value.1 * 4 + li)
    }
}

impl Coord for NumberCoord {
    open spec fn is_cell(&self) -> bool {
        0 <= self.value() < 16
    }

    open spec fn cell_index(&self) -> int {
        self.value()
    }

    fn to_num(&self) -> (r: u8) {
        self.n
    }
}

} // verus!
