use vstd::prelude::*;

use crate::coord::LetterCoord;

verus! {

/// Declares std's `io::Error`, which a failure of the terminal carries; the
/// library holds it without looking inside.
#[verifier::external_type_specification]
#[verifier::external_body]
pub struct ExIoError(std::io::Error);

/// What can go wrong in a game.
#[derive(Debug)]
pub enum P4Error {
    OutputInterfaceError(std::io::Error),
    OverFilledPillar(Option<LetterCoord>),
    EmptyPlayerPlayed,
}

impl From<std::io::Error> for P4Error {
    fn from(recived_e: std::io::Error) -> (r: Self) {
        P4Error::OutputInterfaceError(recived_e)
    }
}

impl vstd::std_specs::convert::FromSpecImpl<std::io::Error> for P4Error {
    open spec fn obeys_from_spec() -> bool {
        true
    }

    open spec fn from_spec(v: std::io::Error) -> P4Error {
        P4Error::OutputInterfaceError(v)
    }
}

} // verus!
