//! The ways in which a request to the engine can fail.

use vstd::prelude::*;
use vstd::string::StringExecFns;

verus! {

/// Why a request was turned down. Every failure leaves the state it was
/// asked to change exactly as it was.
#[derive(Clone, Copy, Debug, PartialEq, Eq, Structural)]
pub enum ErrorKind {
    /// The cell number lies beyond the last cell of the table.
    OutOfRange,
    /// The cell already holds a mark.
    CellOccupied,
    /// A saved record does not describe a game.
    CorruptRecord,
    /// The table size asked for is not one the game is played on.
    InvalidSize,
}

impl ErrorKind {
    /// The sentence shown to the players for this failure.
    pub open spec fn text(self) -> Seq<char> {
        match self {
            ErrorKind::OutOfRange =>
                "A place which you want insert your character is located out the table.\n"@,
            ErrorKind::CellOccupied =>
                "In a place which you want insert your character yet inserted a character.\n"@,
            ErrorKind::CorruptRecord => "A saved game is damaged and can not be loaded.\n"@,
            ErrorKind::InvalidSize =>
                "A size of your game table must be great then 2 and less then 11.\n"@,
        }
    }

    /// Returns the sentence shown to the players for this failure.
    pub fn message(&self) -> (message: String)
        ensures
            message@ == self.text(),
    {
        match self {
            ErrorKind::OutOfRange => String::from_str(
                "A place which you want insert your character is located out the table.\n",
            ),
            ErrorKind::CellOccupied => String::from_str(
                "In a place which you want insert your character yet inserted a character.\n",
            ),
            ErrorKind::CorruptRecord => String::from_str(
                "A saved game is damaged and can not be loaded.\n",
            ),
            ErrorKind::InvalidSize => String::from_str(
                "A size of your game table must be great then 2 and less then 11.\n",
            ),
        }
    }
}

} // verus!
