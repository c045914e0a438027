//! The three states of a board cell.

use vstd::prelude::*;
use crate::error::ErrorKind;

verus! {

/// What a cell of the table holds: the first player's mark, the second
/// player's mark, or nothing.
#[derive(Clone, Copy, Debug, PartialEq, Eq, Structural)]
pub enum TicTacCharacter {
    /// The mark of the player who moves first.
    Tic,
    /// The mark of the player who moves second.
    Tac,
    /// No mark: the cell is free.
    Null,
}

impl TicTacCharacter {
    /// The mark of the other player. A free cell belongs to nobody and is
    /// mapped to itself.
    pub open spec fn opponent(self) -> TicTacCharacter {
        match self {
            TicTacCharacter::Tic => TicTacCharacter::Tac,
            TicTacCharacter::Tac => TicTacCharacter::Tic,
            TicTacCharacter::Null => TicTacCharacter::Null,
        }
    }

    /// The character drawn for this mark.
    pub open spec fn glyph(self) -> char {
        match self {
            TicTacCharacter::Tic => 'X',
            TicTacCharacter::Tac => 'O',
            TicTacCharacter::Null => ' ',
        }
    }

    /// The number under which this mark is stored in a saved record.
    pub open spec fn token(self) -> u8 {
        match self {
            TicTacCharacter::Null => 0,
            TicTacCharacter::Tic => 1,
            TicTacCharacter::Tac => 2,
        }
    }

    /// The mark that a stored number stands for, if it stands for one.
    pub open spec fn of_token(token: u8) -> Option<TicTacCharacter> {
        if token == 0 {
            Some(TicTacCharacter::Null)
        } else if token == 1 {
            Some(TicTacCharacter::Tic)
        } else if token == 2 {
            Some(TicTacCharacter::Tac)
        } else {
            None
        }
    }

    /// Returns the mark of the other player.
    pub fn anti(&self) -> (other: Self)
        ensures
            other == self.opponent(),
    {
        match self {
            TicTacCharacter::Tic => TicTacCharacter::Tac,
            TicTacCharacter::Tac => TicTacCharacter::Tic,
            TicTacCharacter::Null => TicTacCharacter::Null,
        }
    }

    /// Returns the character drawn for this mark.
    pub fn to_char(&self) -> (glyph: char)
        ensures
            glyph == self.glyph(),
    {
        match self {
            TicTacCharacter::Tic => 'X',
            TicTacCharacter::Tac => 'O',
            TicTacCharacter::Null => ' ',
        }
    }

    /// Returns the number under which this mark is stored.
    pub fn to_token(&self) -> (token: u8)
        ensures
            token == self.token(),
    {
        match self {
            TicTacCharacter::Null => 0,
            TicTacCharacter::Tic => 1,
            TicTacCharacter::Tac => 2,
        }
    }

    /// Reads a stored number back into a mark. A number that stands for no
    /// mark is reported as a corrupt record.
    pub fn from_token(token: u8) -> (result: Result<Self, ErrorKind>)
        ensures
            match Self::of_token(token) {
                Some(mark) => result == Ok::<Self, ErrorKind>(mark),
                None => result == Err::<Self, ErrorKind>(ErrorKind::CorruptRecord),
            },
    {
        if token == 0 {
            Ok(TicTacCharacter::Null)
        } else if token == 1 {
            Ok(TicTacCharacter::Tic)
        } else if token == 2 {
            Ok(TicTacCharacter::Tac)
        } else {
            Err(ErrorKind::CorruptRecord)
        }
    }

    /// Taking the opponent twice gives the mark back, and the two players'
    /// marks are each other's opponents.
    pub proof fn law_opponent_involution(mark: TicTacCharacter)
        ensures
            mark.opponent().opponent() == mark,
            mark != TicTacCharacter::Null ==> mark.opponent() != mark,
            mark != TicTacCharacter::Null ==> mark.opponent() != TicTacCharacter::Null,
    {
    }

    /// The stored numbers are distinct and each reads back as the mark it
    /// was written for; no other number is read as a mark.
    pub proof fn law_token_round_trip(mark: TicTacCharacter, token: u8)
        ensures
            Self::of_token(mark.token()) == Some(mark),
            Self::of_token(token) == Some(mark) <==> token == mark.token(),
    {
    }
}

impl Default for TicTacCharacter {
    /// A cell starts out free.
    fn default() -> (mark: Self)
        ensures
            mark == TicTacCharacter::Null,
    {
        TicTacCharacter::Null
    }
}

} // verus!
