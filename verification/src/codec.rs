//! The saved form of a game: a flat record of plain values from which the
//! game is resumed exactly as it was left.
//!
//! A record holds the two names, the number that stands for the mark of the
//! player to move, and the table row by row with one number per cell. How a
//! record is written to or read from storage is not this crate's concern.

use vstd::prelude::*;
use crate::error::ErrorKind;
use crate::game::{Game, GameView};
use crate::grid::{playable, Grid};
use crate::mark::TicTacCharacter;
use crate::table::Table;

verus! {

/// A table written down as stored numbers, row by row.
pub type TokenGrid = Seq<Seq<u8>>;

/// The rows of a vector of vectors as a sequence of sequences.
pub open spec fn rows_of(rows: &Vec<Vec<u8>>) -> TokenGrid {
    Seq::new(rows@.len(), |r: int| rows@[r]@)
}

/// The stored numbers of a grid: cell by cell the number of its mark.
pub open spec fn grid_tokens(grid: Grid) -> TokenGrid {
    Seq::new(grid.len(), |r: int| Seq::new(grid[r].len(), |c: int| grid[r][c].token()))
}

/// Stored numbers describe a table if they form a square of a playable
/// size, or hold no rows at all, and every number stands for a mark.
pub open spec fn tokens_readable(tokens: TokenGrid) -> bool {
    &&& forall|r: int| 0 <= r < tokens.len() ==> (#[trigger] tokens[r]).len() == tokens.len()
    &&& tokens.len() == 0 || playable(tokens.len() as int)
    &&& forall|r: int, c: int|
        0 <= r < tokens.len() && 0 <= c < tokens[r].len() ==> TicTacCharacter::of_token(
            #[trigger] tokens[r][c],
        ) is Some
}

/// The grid that stored numbers describe.
pub open spec fn tokens_grid(tokens: TokenGrid) -> Grid {
    Seq::new(
        tokens.len(),
        |r: int|
            Seq::new(tokens[r].len(), |c: int| TicTacCharacter::of_token(tokens[r][c]).unwrap()),
    )
}

/// The saved form of a game.
#[derive(Clone, Debug, PartialEq, Eq)]
pub struct Record {
    /// The name of the player who moves first.
    pub player_one: String,
    /// The name of the player who moves second.
    pub player_two: String,
    /// The stored number of the mark that is placed next.
    pub turn: u8,
    /// The stored numbers of the cells, row by row.
    pub grid: Vec<Vec<u8>>,
}

/// A record as a mathematical value.
pub struct RecordView {
    /// The name of the player who moves first.
    pub player_one: Seq<char>,
    /// The name of the player who moves second.
    pub player_two: Seq<char>,
    /// The stored number of the mark that is placed next.
    pub turn: u8,
    /// The stored numbers of the cells, row by row.
    pub grid: TokenGrid,
}

impl View for Record {
    type V = RecordView;

    open spec fn view(&self) -> RecordView {
        RecordView {
            player_one: self.player_one@,
            player_two: self.player_two@,
            turn: self.turn,
            grid: rows_of(&self.grid),
        }
    }
}

/// The record under which a game is saved.
pub open spec fn encoded(game: GameView) -> RecordView {
    RecordView {
        player_one: game.player_one,
        player_two: game.player_two,
        turn: game.turn.token(),
        grid: grid_tokens(game.grid),
    }
}

/// A record describes a game if its numbers describe a table, its turn
/// number stands for a mark, and that mark is a player's exactly if the
/// table has cells.
pub open spec fn decodable(record: RecordView) -> bool {
    &&& tokens_readable(record.grid)
    &&& TicTacCharacter::of_token(record.turn) is Some
    &&& record.grid.len() > 0 <==> record.turn != TicTacCharacter::Null.token()
}

/// The game that a record describes.
pub open spec fn decoded(record: RecordView) -> GameView {
    GameView {
        player_one: record.player_one,
        player_two: record.player_two,
        grid: tokens_grid(record.grid),
        turn: TicTacCharacter::of_token(record.turn).unwrap(),
    }
}

/// Writes a game down as a record: the names, the turn and every cell of
/// the table, each mark under its own number.
pub fn encode(game: &Game) -> (record: Record)
    ensures
        record@ == encoded(game@),
{
    let record = Record {
        player_one: game.player_one().clone(),
        player_two: game.player_two().clone(),
        turn: game.motions_character().to_token(),
        grid: game.table().tokens(),
    };
    assert(record@.grid =~= grid_tokens(game@.grid));
    record
}

/// Reads a game back from a record. A record whose table is not a square
/// of a playable size (or empty), that holds a number which stands for no
/// mark, or whose turn does not fit its table is turned down as corrupt.
pub fn decode(record: Record) -> (result: Result<Game, ErrorKind>)
    ensures
        match result {
            Ok(game) => decodable(record@) && game.wf() && game@ == decoded(record@),
            Err(kind) => !decodable(record@) && kind == ErrorKind::CorruptRecord,
        },
{
    let table = match Table::from_tokens(&record.grid) {
        Ok(table) => table,
        Err(kind) => {
            return Err(kind);
        },
    };
    let turn = match TicTacCharacter::from_token(record.turn) {
        Ok(turn) => turn,
        Err(kind) => {
            return Err(kind);
        },
    };
    if (table.size() > 0) != (turn != TicTacCharacter::Null) {
        return Err(ErrorKind::CorruptRecord);
    }
    Ok(Game::resume(record.player_one, record.player_two, table, turn))
}

/// Saving a game and reading the record back gives the same game: the same
/// names, the same mark in every cell, the same player to move.
pub proof fn law_decode_inverts_encode(game: GameView)
    requires
        game.wf(),
    ensures
        decodable(encoded(game)),
        decoded(encoded(game)) == game,
{
    let record = encoded(game);
    assert forall|r: int, c: int|
        0 <= r < record.grid.len() && 0 <= c < record.grid[r].len() implies TicTacCharacter::of_token(
        #[trigger] record.grid[r][c],
    ) == Some(game.grid[r][c]) by {
        TicTacCharacter::law_token_round_trip(game.grid[r][c], 0);
    }
    TicTacCharacter::law_token_round_trip(game.turn, 0);
    assert forall|r: int| 0 <= r < game.grid.len() implies #[trigger] tokens_grid(record.grid)[r]
        =~= game.grid[r] by {
        assert(record.grid[r].len() == game.grid[r].len());
    }
    assert(tokens_grid(record.grid) =~= game.grid);
}

/// Reading a record that describes a game and saving that game again gives
/// the same record: no two records describe the same game.
pub proof fn law_encode_inverts_decode(record: RecordView)
    requires
        decodable(record),
    ensures
        decoded(record).wf(),
        encoded(decoded(record)) == record,
{
    let game = decoded(record);
    assert forall|r: int| 0 <= r < record.grid.len() implies #[trigger] grid_tokens(game.grid)[r]
        =~= record.grid[r] by {
        assert forall|c: int| 0 <= c < record.grid[r].len() implies grid_tokens(
            game.grid,
        )[r][c] == record.grid[r][c] by {
            assert(TicTacCharacter::of_token(record.grid[r][c]) is Some);
        }
    }
    assert(grid_tokens(game.grid) =~= record.grid);
    assert forall|r: int| 0 <= r < game.grid.len() implies (#[trigger] game.grid[r]).len()
        == game.grid.len() by {
        assert(record.grid[r].len() == record.grid.len());
    }
}

} // verus!
