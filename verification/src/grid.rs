//! The mathematical model of the table: a square grid of marks, the linear
//! numbering of its cells, and the lines along which a game is won.

use vstd::prelude::*;
use crate::error::ErrorKind;
use crate::mark::TicTacCharacter;

verus! {

/// The smallest table the game is played on.
pub const MIN_SIZE: usize = 3;

/// The largest table the game is played on.
pub const MAX_SIZE: usize = 10;

/// The rows of a table, top to bottom, each row left to right.
pub type Grid = Seq<Seq<TicTacCharacter>>;

/// Every row is as long as the grid is high.
pub open spec fn is_square(grid: Grid) -> bool {
    forall|r: int| 0 <= r < grid.len() ==> (#[trigger] grid[r]).len() == grid.len()
}

/// The sizes a game can be started with.
pub open spec fn playable(size: int) -> bool {
    MIN_SIZE <= size <= MAX_SIZE
}

/// A grid is well formed if it is square and either has a playable size or
/// no cells at all; the latter is the table of a game that was never started.
pub open spec fn well_formed(grid: Grid) -> bool {
    is_square(grid) && (grid.len() == 0 || playable(grid.len() as int))
}

/// The grid of the given size in which every cell is free.
pub open spec fn blank(size: nat) -> Grid {
    Seq::new(size, |r: int| Seq::new(size, |c: int| TicTacCharacter::Null))
}

/// The number of cells of a square grid.
pub open spec fn cell_count(grid: Grid) -> nat {
    grid.len() * grid.len()
}

/// The row in which the cell with the given linear number lies.
pub open spec fn row_of(grid: Grid, index: int) -> int {
    index / (grid.len() as int)
}

/// The column in which the cell with the given linear number lies.
pub open spec fn column_of(grid: Grid, index: int) -> int {
    index % (grid.len() as int)
}

/// The mark in the cell with the given linear number, counted from zero,
/// row by row.
pub open spec fn cell(grid: Grid, index: int) -> TicTacCharacter {
    grid[row_of(grid, index)][column_of(grid, index)]
}

/// All cells in the order of their linear numbers.
pub open spec fn cells(grid: Grid) -> Seq<TicTacCharacter> {
    Seq::new(cell_count(grid), |index: int| cell(grid, index))
}

/// The grid in which the cell with the given linear number holds `mark` and
/// every other cell is as in `grid`.
pub open spec fn with_cell(grid: Grid, index: int, mark: TicTacCharacter) -> Grid {
    grid.update(
        row_of(grid, index),
        grid[row_of(grid, index)].update(column_of(grid, index), mark),
    )
}

/// What placing `mark` at `index` comes to: the new grid, or the reason why
/// the move is turned down.
pub open spec fn placed(grid: Grid, index: int, mark: TicTacCharacter) -> Result<Grid, ErrorKind> {
    if !(0 <= index < cell_count(grid)) {
        Err(ErrorKind::OutOfRange)
    } else if cell(grid, index) != TicTacCharacter::Null {
        Err(ErrorKind::CellOccupied)
    } else {
        Ok(with_cell(grid, index, mark))
    }
}

/// No cell is free.
pub open spec fn is_full(grid: Grid) -> bool {
    forall|r: int, c: int|
        0 <= r < grid.len() && 0 <= c < grid[r].len() ==> #[trigger] grid[r][c]
            != TicTacCharacter::Null
}

/// The cells of row `r`, left to right.
pub open spec fn row_line(grid: Grid, r: int) -> Seq<TicTacCharacter> {
    Seq::new(grid.len(), |c: int| grid[r][c])
}

/// The cells of column `c`, top to bottom.
pub open spec fn column_line(grid: Grid, c: int) -> Seq<TicTacCharacter> {
    Seq::new(grid.len(), |r: int| grid[r][c])
}

/// The cells of the diagonal that starts in the leftmost column at row
/// `anchor` and runs down to the right until it leaves the grid.
pub open spec fn left_diagonal(grid: Grid, anchor: int) -> Seq<TicTacCharacter> {
    Seq::new((grid.len() - anchor) as nat, |i: int| grid[anchor + i][i])
}

/// The cells of the diagonal that starts in the rightmost column at row
/// `anchor` and runs down to the left until it leaves the grid.
pub open spec fn right_diagonal(grid: Grid, anchor: int) -> Seq<TicTacCharacter> {
    Seq::new((grid.len() - anchor) as nat, |i: int| grid[anchor + i][grid.len() - 1 - i])
}

/// A line is won by `mark` if none of its cells is free and none holds the
/// opponent's mark.
pub open spec fn line_won(line: Seq<TicTacCharacter>, mark: TicTacCharacter) -> bool {
    !line.contains(mark.opponent()) && !line.contains(TicTacCharacter::Null)
}

/// `mark` has won if it has won one of the lines that count: a row, a
/// column, or a diagonal of either direction anchored at any row but the
/// last. Diagonals that start in the top row to the side of a corner do not
/// count.
pub open spec fn has_won(grid: Grid, mark: TicTacCharacter) -> bool {
    ||| exists|r: int| 0 <= r < grid.len() && line_won(#[trigger] row_line(grid, r), mark)
    ||| exists|c: int| 0 <= c < grid.len() && line_won(#[trigger] column_line(grid, c), mark)
    ||| exists|anchor: int|
        0 <= anchor < grid.len() - 1 && line_won(#[trigger] left_diagonal(grid, anchor), mark)
    ||| exists|anchor: int|
        0 <= anchor < grid.len() - 1 && line_won(#[trigger] right_diagonal(grid, anchor), mark)
}

/// A linear cell number below `size * size` splits into a row and a column
/// that both lie on the grid, and is recovered from them.
pub proof fn lemma_index_splits(size: int, index: int)
    requires
        0 <= size,
        0 <= index < size * size,
    ensures
        0 <= index / size < size,
        0 <= index % size < size,
        index == size * (index / size) + index % size,
{
    assert(size > 0) by (nonlinear_arith)
        requires
            0 <= size,
            0 <= index < size * size,
    ;
    assert(0 <= index / size < size && 0 <= index % size < size && index == size * (index / size)
        + index % size) by (nonlinear_arith)
        requires
            0 <= index < size * size,
            size > 0,
    ;
}

/// Cells are numbered row by row: the cell in row `r` and column `c` has the
/// linear number `size * r + c`, and that number leads back to the same row
/// and column.
pub proof fn law_linear_address(grid: Grid, r: int, c: int)
    requires
        0 <= r < grid.len(),
        0 <= c < grid.len(),
    ensures
        0 <= grid.len() * r + c < cell_count(grid),
        row_of(grid, grid.len() * r + c) == r,
        column_of(grid, grid.len() * r + c) == c,
        cell(grid, grid.len() * r + c) == grid[r][c],
{
    let size = grid.len() as int;
    assert(0 <= size * r + c < size * size && (size * r + c) / size == r && (size * r + c) % size
        == c) by (nonlinear_arith)
        requires
            0 <= r < size,
            0 <= c < size,
    ;
}

/// Writing a mark into a cell of the grid changes that cell and no other,
/// and keeps the grid's shape.
pub proof fn lemma_with_cell(grid: Grid, index: int, mark: TicTacCharacter)
    requires
        is_square(grid),
        0 <= index < cell_count(grid),
    ensures
        with_cell(grid, index, mark).len() == grid.len(),
        is_square(with_cell(grid, index, mark)),
        well_formed(grid) ==> well_formed(with_cell(grid, index, mark)),
        cell(with_cell(grid, index, mark), index) == mark,
        forall|other: int|
            0 <= other < cell_count(grid) && other != index ==> cell(
                with_cell(grid, index, mark),
                other,
            ) == cell(grid, other),
{
    let size = grid.len() as int;
    let after = with_cell(grid, index, mark);
    lemma_index_splits(size, index);
    assert forall|r: int| 0 <= r < after.len() implies (#[trigger] after[r]).len()
        == after.len() by {
        assert(grid[r].len() == grid.len());
    }
    assert forall|other: int| 0 <= other < cell_count(grid) && other != index implies cell(
        after,
        other,
    ) == cell(grid, other) by {
        lemma_index_splits(size, other);
    }
}

/// A cell that does not hold `mark` after `mark` was written somewhere is
/// not the cell that was written, and holds what it held before.
pub proof fn lemma_cell_kept(grid: Grid, index: int, mark: TicTacCharacter, r: int, c: int)
    requires
        is_square(grid),
        0 <= index < cell_count(grid),
        0 <= r < grid.len(),
        0 <= c < grid.len(),
        with_cell(grid, index, mark)[r][c] != mark,
    ensures
        with_cell(grid, index, mark)[r][c] == grid[r][c],
{
    lemma_index_splits(grid.len() as int, index);
}

/// Writing a player's mark into the grid wins no line for the opponent: a
/// line that the opponent has won afterwards was won before.
pub proof fn lemma_mark_helps_no_opponent(grid: Grid, index: int, mark: TicTacCharacter)
    requires
        is_square(grid),
        0 <= index < cell_count(grid),
        mark != TicTacCharacter::Null,
        has_won(with_cell(grid, index, mark), mark.opponent()),
    ensures
        has_won(grid, mark.opponent()),
{
    let after = with_cell(grid, index, mark);
    let other = mark.opponent();
    let size = grid.len() as int;
    lemma_with_cell(grid, index, mark);
    assert(other.opponent() == mark);
    if exists|r: int| 0 <= r < size && line_won(#[trigger] row_line(after, r), other) {
        let r = choose|r: int| 0 <= r < size && line_won(#[trigger] row_line(after, r), other);
        assert forall|c: int| 0 <= c < size implies row_line(after, r)[c] == row_line(
            grid,
            r,
        )[c] by {
            assert(row_line(after, r).contains(row_line(after, r)[c]));
            lemma_cell_kept(grid, index, mark, r, c);
        }
        assert(row_line(after, r) =~= row_line(grid, r));
    } else if exists|c: int| 0 <= c < size && line_won(#[trigger] column_line(after, c), other) {
        let c = choose|c: int| 0 <= c < size && line_won(#[trigger] column_line(after, c), other);
        assert forall|r: int| 0 <= r < size implies column_line(after, c)[r] == column_line(
            grid,
            c,
        )[r] by {
            assert(column_line(after, c).contains(column_line(after, c)[r]));
            lemma_cell_kept(grid, index, mark, r, c);
        }
        assert(column_line(after, c) =~= column_line(grid, c));
    } else if exists|anchor: int|
        0 <= anchor < size - 1 && line_won(#[trigger] left_diagonal(after, anchor), other) {
        let anchor = choose|anchor: int|
            0 <= anchor < size - 1 && line_won(#[trigger] left_diagonal(after, anchor), other);
        assert forall|i: int| 0 <= i < size - anchor implies left_diagonal(after, anchor)[i]
            == left_diagonal(grid, anchor)[i] by {
            assert(left_diagonal(after, anchor).contains(left_diagonal(after, anchor)[i]));
            lemma_cell_kept(grid, index, mark, anchor + i, i);
        }
        assert(left_diagonal(after, anchor) =~= left_diagonal(grid, anchor));
    } else {
        let anchor = choose|anchor: int|
            0 <= anchor < size - 1 && line_won(#[trigger] right_diagonal(after, anchor), other);
        assert forall|i: int| 0 <= i < size - anchor implies right_diagonal(after, anchor)[i]
            == right_diagonal(grid, anchor)[i] by {
            assert(right_diagonal(after, anchor).contains(right_diagonal(after, anchor)[i]));
            lemma_cell_kept(grid, index, mark, anchor + i, size - 1 - i);
        }
        assert(right_diagonal(after, anchor) =~= right_diagonal(grid, anchor));
    }
}

/// A freshly laid out table of a playable size has `size * size` cells, all
/// of them free, and is therefore not full.
pub proof fn law_blank_grid(size: nat)
    requires
        playable(size as int),
    ensures
        well_formed(blank(size)),
        cells(blank(size)).len() == size * size,
        forall|index: int|
            0 <= index < size * size ==> #[trigger] cells(blank(size))[index]
                == TicTacCharacter::Null,
        !is_full(blank(size)),
{
    let grid = blank(size);
    assert forall|index: int| 0 <= index < size * size implies #[trigger] cells(grid)[index]
        == TicTacCharacter::Null by {
        lemma_index_splits(size as int, index);
    }
    assert(grid[0][0] == TicTacCharacter::Null);
}

} // verus!
