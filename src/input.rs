use vstd::prelude::*;

use crate::coord::{index_of, letter_of, lemma_coordinate_round_trip, Coord, Letter, LetterCoord};

verus! {

/// A coordinate being typed in: a letter and a digit, each set or not yet.
#[derive(Clone, Copy, Debug, PartialEq, Eq, Structural)]
pub struct Input {
    letter: Option<Letter>,
    number: Option<u8>,
}

impl Input {
    pub closed spec fn letter_spec(&self) -> Option<Letter> {
        self.letter
    }

    pub closed spec fn number_spec(&self) -> Option<u8> {
        self.number
    }

    /// A digit, once set, is one of 0 to 3.
    pub open spec fn wf(&self) -> bool {
        self.number_spec() matches Some(n) ==> n < 4
    }

    /// Both the letter and the digit are set.
    pub open spec fn complete(&self) -> bool {
        self.letter_spec() is Some && self.number_spec() is Some
    }

    #[allow(dead_code)]
    fn reset(&mut self)
        ensures
            final(self).letter_spec() is None,
            final(self).number_spec() is None,
    {
        self.letter = None;
        self.number = None;
    }

    #[allow(dead_code)]
    fn give(&mut self) -> (r: LetterCoord)
        requires
            old(self).is_cell(),
        ensures
            r.number_spec() < 4,
            index_of(r.letter_spec(), r.number_spec()) == old(self).cell_index(),
            final(self).letter_spec() is None,
            final(self).number_spec() is None,
    {
        let res = self.get_to_coord();
        self.reset();
        res
    }

    fn get_to_coord(&self) -> (r: LetterCoord)
        requires
            self.is_cell(),
        ensures
            r.number_spec() < 4,
            index_of(r.letter_spec(), r.number_spec()) == self.cell_index(),
    {
        let letter = self.letter.unwrap();
        let number: u8 = self.number.unwrap();
        LetterCoord::from_ln((letter, number))
    }

    pub fn set_letter(&mut self, letter: Letter)
        ensures
            final(self).letter_spec() == Some(letter),
            final(self).number_spec() == old(self).number_spec(),
    {
        self.letter = Some(letter);
    }

    pub fn set_number(&mut self, number: usize)
        requires
            number < 4,
        ensures
            final(self).number_spec() == Some(number as u8),
            final(self).letter_spec() == old(self).letter_spec(),
    {
        self.number = Some(number as u8);
    }

    pub fn is_valid(&self) -> (r: bool)
        ensures
            r == self.complete(),
    {
        self.letter.is_some() && self.number.is_some()
    }

    pub fn split(&self) -> (r: (Option<Letter>, Option<u8>))
        ensures
            r == (self.letter_spec(), self.number_spec()),
    {
        (self.letter, self.number)
    }

    pub fn from_ln(value: (Letter, u8)) -> (r: Input)
        requires
            value.1 < 4,
        ensures
            r.letter_spec() == Some(value.0),
            r.number_spec() == Some(value.1),
            r.is_cell(),
            r.cell_index() == index_of(value.0, value.1 as int),
    {
        let mut res = Input::default();
        res.set_letter(value.0);
        res.set_number(value.1 as usize);
        res
    }

    pub fn from_index(value: u8) -> (r: Input)
        requires
            value < 16,
        ensures
            r.is_cell(),
            r.cell_index() == value,
            r.letter_spec() == Some(letter_of(value as int)),
            r.number_spec() == Some((value / 4) as u8),
    {
        let letter = Letter::from_ordinal(value % 4);
        proof {
            lemma_coordinate_round_trip(value as int);
        }
        Input::from_ln((letter, value / 4))
    }
}

impl Default for Input {
    fn default() -> (r: Self)
        ensures
            r.letter_spec() is None,
            r.number_spec() is None,
    {
        Input { letter: None, number: None }
    }
}

impl Coord for Input {
    open spec fn is_cell(&self) -> bool {
        self.complete() && self.wf()
    }

    open spec fn cell_index(&self) -> int {
        index_of(self.letter_spec().unwrap(), self.number_spec().unwrap() as int)
    }

    fn to_xy_coord(&self) -> (r: (u16, u16)) {
        let l: u16 = self.letter.unwrap().to_ordinal() as u16;
        (l, self.number.unwrap() as u16)
    }

    fn to_num(&self) -> (r: u8) {
        let (l, n) = self.to_xy_coord();
        l as u8 + n as u8 * 4
    }
}

} // verus!
