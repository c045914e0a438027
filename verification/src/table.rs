//! The table the game is played on: a square grid of cells that accepts
//! marks one at a time and tells when a player has won.

use vstd::prelude::*;
use crate::codec::{grid_tokens, rows_of, tokens_grid, tokens_readable};
use crate::error::ErrorKind;
use crate::grid::{
    blank, cell, cell_count, column_line, has_won, is_full, left_diagonal, lemma_index_splits,
    lemma_with_cell, line_won, placed, playable, right_diagonal, row_line, well_formed, with_cell,
    Grid,
};
use crate::mark::TicTacCharacter;

verus! {

/// A square table of cells. Its size is fixed when it is created; the only
/// change it undergoes afterwards is that free cells receive marks.
#[derive(Clone, Debug, PartialEq, Eq)]
pub struct Table {
    pub(crate) table: Vec<Vec<TicTacCharacter>>,
}

impl Table {
    /// The rows of the table as a mathematical grid.
    pub closed spec fn grid(&self) -> Grid {
        Seq::new(self.table@.len(), |r: int| self.table@[r]@)
    }

    /// The table is square and of a size the game is played on, or has no
    /// cells at all.
    pub open spec fn wf(&self) -> bool {
        well_formed(self.grid())
    }

    /// Creates a table of `size` rows and `size` columns in which every
    /// cell is free.
    pub fn create_with(size: usize) -> (table: Self)
        requires
            playable(size as int),
        ensures
            table.wf(),
            table.grid() == blank(size as nat),
    {
        let mut table: Vec<Vec<TicTacCharacter>> = Vec::new();
        for r in 0..size
            invariant
                table@.len() == r,
                forall|k: int| 0 <= k < r ==> (#[trigger] table@[k])@ =~= blank(size as nat)[k],
        {
            let mut line: Vec<TicTacCharacter> = Vec::new();
            for c in 0..size
                invariant
                    line@.len() == c,
                    forall|k: int| 0 <= k < c ==> line@[k] == TicTacCharacter::Null,
            {
                line.push(TicTacCharacter::Null);
            }
            table.push(line);
        }
        let created = Self { table };
        assert(created.grid() =~= blank(size as nat));
        created
    }

    /// Returns the number of rows, which is also the number of columns.
    pub fn size(&self) -> (size: usize)
        ensures
            size == self.grid().len(),
    {
        self.table.len()
    }

    /// Returns the mark in the given row and column.
    pub(crate) fn at(&self, r: usize, c: usize) -> (mark: TicTacCharacter)
        requires
            self.wf(),
            r < self.grid().len(),
            c < self.grid().len(),
        ensures
            mark == self.grid()[r as int][c as int],
    {
        assert(self.grid()[r as int].len() == self.grid().len());
        self.table[r][c]
    }

    /// Returns the mark in the cell with the given linear number, counted
    /// from zero row by row, or `None` if the table has no such cell.
    pub fn cell(&self, index: usize) -> (mark: Option<TicTacCharacter>)
        requires
            self.wf(),
        ensures
            mark == if index < cell_count(self.grid()) {
                Some(cell(self.grid(), index as int))
            } else {
                None
            },
    {
        let size = self.table.len();
        assert(size * size <= 100) by (nonlinear_arith)
            requires
                size <= 10,
        ;
        if index >= size * size {
            return None;
        }
        proof {
            lemma_index_splits(size as int, index as int);
        }
        Some(self.table[index / size][index % size])
    }

    /// Puts `character` into the cell with the given linear number. The
    /// move is turned down, and the table left as it was, if the number is
    /// not that of a cell or if the cell already holds a mark.
    pub fn insert(&mut self, index: usize, character: TicTacCharacter) -> (result: Result<
        (),
        ErrorKind,
    >)
        requires
            old(self).wf(),
        ensures
            final(self).wf(),
            match placed(old(self).grid(), index as int, character) {
                Ok(grid) => result == Ok::<(), ErrorKind>(()) && final(self).grid() == grid,
                Err(kind) => result == Err::<(), ErrorKind>(kind) && final(self).grid() == old(
                    self,
                ).grid(),
            },
            index >= cell_count(old(self).grid()) <==> result == Err::<(), ErrorKind>(
                ErrorKind::OutOfRange,
            ),
            index < cell_count(old(self).grid()) && cell(old(self).grid(), index as int)
                != TicTacCharacter::Null <==> result == Err::<(), ErrorKind>(
                ErrorKind::CellOccupied,
            ),
            result is Err ==> final(self).grid() == old(self).grid(),
            final(self).grid().len() == old(self).grid().len(),
    {
        let size = self.table.len();
        assert(size * size <= 100) by (nonlinear_arith)
            requires
                size <= 10,
        ;
        if index >= size * size {
            return Err(ErrorKind::OutOfRange);
        }
        proof {
            lemma_index_splits(size as int, index as int);
        }
        let y = index / size;
        let x = index % size;
        if self.table[y][x] != TicTacCharacter::Null {
            return Err(ErrorKind::CellOccupied);
        }
        self.table[y][x] = character;
        proof {
            assert(self.grid() =~= with_cell(old(self).grid(), index as int, character));
            lemma_with_cell(old(self).grid(), index as int, character);
        }
        Ok(())
    }

    /// Tells whether no cell of the table is free.
    pub fn filed(&self) -> (full: bool)
        ensures
            full == is_full(self.grid()),
    {
        for r in 0..self.table.len()
            invariant
                forall|i: int, j: int|
                    0 <= i < r && 0 <= j < self.grid()[i].len() ==> #[trigger] self.grid()[i][j]
                        != TicTacCharacter::Null,
        {
            let width = self.table[r].len();
            for c in 0..width
                invariant
                    r < self.table@.len(),
                    width == self.grid()[r as int].len(),
                    forall|j: int|
                        0 <= j < c ==> #[trigger] self.grid()[r as int][j]
                            != TicTacCharacter::Null,
            {
                if self.table[r][c] == TicTacCharacter::Null {
                    assert(self.grid()[r as int][c as int] == TicTacCharacter::Null);
                    return false;
                }
            }
        }
        true
    }

    /// Tells whether `character` has won: whether one of the rows, columns
    /// or counted diagonals is fully marked and holds no mark of the
    /// opponent.
    pub fn check_win(&self, character: TicTacCharacter) -> (won: bool)
        requires
            self.wf(),
        ensures
            won == has_won(self.grid(), character),
    {
        let size = self.table.len();
        if size == 0 {
            return false;
        }
        for r in 0..size
            invariant
                self.wf(),
                size == self.grid().len(),
                forall|k: int|
                    0 <= k < r ==> !line_won(
                        #[trigger] row_line(self.grid(), k),
                        character,
                    ),
        {
            let line = self.row_cells(r);
            if Self::line_is_won(&line, character) {
                return true;
            }
        }
        for c in 0..size
            invariant
                self.wf(),
                size == self.grid().len(),
                forall|k: int|
                    0 <= k < size ==> !line_won(
                        #[trigger] row_line(self.grid(), k),
                        character,
                    ),
                forall|k: int|
                    0 <= k < c ==> !line_won(
                        #[trigger] column_line(self.grid(), k),
                        character,
                    ),
        {
            let line = self.column_cells(c);
            if Self::line_is_won(&line, character) {
                return true;
            }
        }
        for anchor in 0..(size - 1)
            invariant
                self.wf(),
                size == self.grid().len(),
                size > 0,
                forall|k: int|
                    0 <= k < size ==> !line_won(
                        #[trigger] row_line(self.grid(), k),
                        character,
                    ),
                forall|k: int|
                    0 <= k < size ==> !line_won(
                        #[trigger] column_line(self.grid(), k),
                        character,
                    ),
                forall|k: int|
                    0 <= k < anchor ==> !line_won(
                        #[trigger] left_diagonal(self.grid(), k),
                        character,
                    ),
        {
            let line = self.left_diagonal_cells(anchor);
            if Self::line_is_won(&line, character) {
                return true;
            }
        }
        for anchor in 0..(size - 1)
            invariant
                self.wf(),
                size == self.grid().len(),
                size > 0,
                forall|k: int|
                    0 <= k < size ==> !line_won(
                        #[trigger] row_line(self.grid(), k),
                        character,
                    ),
                forall|k: int|
                    0 <= k < size ==> !line_won(
                        #[trigger] column_line(self.grid(), k),
                        character,
                    ),
                forall|k: int|
                    0 <= k < size - 1 ==> !line_won(
                        #[trigger] left_diagonal(self.grid(), k),
                        character,
                    ),
                forall|k: int|
                    0 <= k < anchor ==> !line_won(
                        #[trigger] right_diagonal(self.grid(), k),
                        character,
                    ),
        {
            let line = self.right_diagonal_cells(anchor);
            if Self::line_is_won(&line, character) {
                return true;
            }
        }
        false
    }

    /// Returns the stored numbers of all cells, row by row.
    pub fn tokens(&self) -> (tokens: Vec<Vec<u8>>)
        ensures
            rows_of(&tokens) == grid_tokens(self.grid()),
    {
        let mut tokens: Vec<Vec<u8>> = Vec::new();
        for r in 0..self.table.len()
            invariant
                tokens@.len() == r,
                forall|k: int|
                    0 <= k < r ==> (#[trigger] tokens@[k])@ =~= grid_tokens(self.grid())[k],
        {
            let width = self.table[r].len();
            let mut line: Vec<u8> = Vec::new();
            for c in 0..width
                invariant
                    r < self.table@.len(),
                    width == self.grid()[r as int].len(),
                    line@.len() == c,
                    forall|k: int|
                        0 <= k < c ==> line@[k] == self.grid()[r as int][k].token(),
            {
                line.push(self.table[r][c].to_token());
            }
            tokens.push(line);
        }
        assert(rows_of(&tokens) =~= grid_tokens(self.grid()));
        tokens
    }

    /// Builds a table from stored numbers. They are turned down as a
    /// corrupt record unless they form a square of a playable size, or hold
    /// no rows at all, and every number stands for a mark.
    pub fn from_tokens(tokens: &Vec<Vec<u8>>) -> (result: Result<Table, ErrorKind>)
        ensures
            match result {
                Ok(table) => {
                    &&& tokens_readable(rows_of(tokens))
                    &&& table.wf()
                    &&& table.grid() == tokens_grid(rows_of(tokens))
                },
                Err(kind) => !tokens_readable(rows_of(tokens)) && kind == ErrorKind::CorruptRecord,
            },
    {
        let size = tokens.len();
        if size != 0 && (size < crate::grid::MIN_SIZE || size > crate::grid::MAX_SIZE) {
            return Err(ErrorKind::CorruptRecord);
        }
        let mut table: Vec<Vec<TicTacCharacter>> = Vec::new();
        for r in 0..size
            invariant
                size == tokens@.len(),
                table@.len() == r,
                forall|k: int| 0 <= k < r ==> (#[trigger] rows_of(tokens)[k]).len() == size,
                forall|k: int, c: int|
                    0 <= k < r && 0 <= c < rows_of(tokens)[k].len() ==> TicTacCharacter::of_token(
                        #[trigger] rows_of(tokens)[k][c],
                    ) is Some,
                forall|k: int|
                    0 <= k < r ==> (#[trigger] table@[k])@ =~= tokens_grid(rows_of(tokens))[k],
        {
            if tokens[r].len() != size {
                assert(rows_of(tokens)[r as int].len() != rows_of(tokens).len());
                return Err(ErrorKind::CorruptRecord);
            }
            let mut line: Vec<TicTacCharacter> = Vec::new();
            for c in 0..size
                invariant
                    r < tokens@.len(),
                    size == rows_of(tokens)[r as int].len(),
                    line@.len() == c,
                    forall|k: int|
                        0 <= k < c ==> TicTacCharacter::of_token(
                            #[trigger] rows_of(tokens)[r as int][k],
                        ) == Some(line@[k]),
            {
                match TicTacCharacter::from_token(tokens[r][c]) {
                    Ok(mark) => line.push(mark),
                    Err(kind) => {
                        assert(TicTacCharacter::of_token(rows_of(tokens)[r as int][c as int])
                            is None);
                        return Err(kind);
                    },
                }
            }
            table.push(line);
        }
        let table = Table { table };
        assert(table.grid() =~= tokens_grid(rows_of(tokens)));
        Ok(table)
    }

    /// Tells whether a line of cells is fully marked and free of the
    /// opponent's mark.
    fn line_is_won(line: &Vec<TicTacCharacter>, character: TicTacCharacter) -> (won: bool)
        ensures
            won == line_won(line@, character),
    {
        let other = character.anti();
        for i in 0..line.len()
            invariant
                other == character.opponent(),
                forall|k: int|
                    0 <= k < i ==> line@[k] != other && line@[k] != TicTacCharacter::Null,
        {
            if line[i] == other || line[i] == TicTacCharacter::Null {
                assert(line@.contains(line@[i as int]));
                return false;
            }
        }
        true
    }

    /// Collects the cells of row `r`.
    fn row_cells(&self, r: usize) -> (line: Vec<TicTacCharacter>)
        requires
            self.wf(),
            r < self.grid().len(),
        ensures
            line@ == row_line(self.grid(), r as int),
    {
        let size = self.table.len();
        let mut line: Vec<TicTacCharacter> = Vec::new();
        for c in 0..size
            invariant
                self.wf(),
                size == self.grid().len(),
                r < size,
                line@.len() == c,
                forall|k: int| 0 <= k < c ==> line@[k] == self.grid()[r as int][k],
        {
            assert(self.grid()[r as int].len() == size);
            line.push(self.table[r][c]);
        }
        assert(line@ =~= row_line(self.grid(), r as int));
        line
    }

    /// Collects the cells of column `c`.
    fn column_cells(&self, c: usize) -> (line: Vec<TicTacCharacter>)
        requires
            self.wf(),
            c < self.grid().len(),
        ensures
            line@ == column_line(self.grid(), c as int),
    {
        let size = self.table.len();
        let mut line: Vec<TicTacCharacter> = Vec::new();
        for r in 0..size
            invariant
                self.wf(),
                size == self.grid().len(),
                c < size,
                line@.len() == r,
                forall|k: int| 0 <= k < r ==> line@[k] == self.grid()[k][c as int],
        {
            assert(self.grid()[r as int].len() == size);
            line.push(self.table[r][c]);
        }
        assert(line@ =~= column_line(self.grid(), c as int));
        line
    }

    /// Collects the cells of the diagonal that runs down to the right from
    /// the leftmost cell of row `anchor`.
    fn left_diagonal_cells(&self, anchor: usize) -> (line: Vec<TicTacCharacter>)
        requires
            self.wf(),
            anchor < self.grid().len(),
        ensures
            line@ == left_diagonal(self.grid(), anchor as int),
    {
        let size = self.table.len();
        let mut line: Vec<TicTacCharacter> = Vec::new();
        for i in 0..(size - anchor)
            invariant
                self.wf(),
                size == self.grid().len(),
                anchor < size,
                line@.len() == i,
                forall|k: int| 0 <= k < i ==> line@[k] == self.grid()[anchor + k][k],
        {
            assert(self.grid()[anchor + i].len() == size);
            line.push(self.table[anchor + i][i]);
        }
        assert(line@ =~= left_diagonal(self.grid(), anchor as int));
        line
    }

    /// Collects the cells of the diagonal that runs down to the left from
    /// the rightmost cell of row `anchor`.
    fn right_diagonal_cells(&self, anchor: usize) -> (line: Vec<TicTacCharacter>)
        requires
            self.wf(),
            anchor < self.grid().len(),
        ensures
            line@ == right_diagonal(self.grid(), anchor as int),
    {
        let size = self.table.len();
        let mut line: Vec<TicTacCharacter> = Vec::new();
        for i in 0..(size - anchor)
            invariant
                self.wf(),
                size == self.grid().len(),
                anchor < size,
                line@.len() == i,
                forall|k: int| 0 <= k < i ==> line@[k] == self.grid()[anchor + k][size - 1 - k],
        {
            assert(self.grid()[anchor + i].len() == size);
            line.push(self.table[anchor + i][size - i - 1]);
        }
        assert(line@ =~= right_diagonal(self.grid(), anchor as int));
        line
    }
}

impl Default for Table {
    /// The table of a game that was never started: it has no cells.
    fn default() -> (table: Self)
        ensures
            table.wf(),
            table.grid() == Seq::<Seq<TicTacCharacter>>::empty(),
    {
        let table = Self { table: Vec::new() };
        assert(table.grid() =~= Seq::<Seq<TicTacCharacter>>::empty());
        table
    }
}

} // verus!
