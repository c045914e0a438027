//! The picture of the table that is shown to the players.
//!
//! Every cell is drawn five characters wide. A free cell shows its number,
//! counted from one row by row and padded with zeros to three digits; a
//! marked cell shows the mark. Cells of a row are parted by `|`, rows by a
//! line of underscores.

use vstd::prelude::*;
use vstd::string::StringExecFns;
use crate::grid::Grid;
use crate::mark::TicTacCharacter;
use crate::table::Table;

verus! {

/// Five copies of `fill`: the width of one cell.
pub open spec fn band(fill: char) -> Seq<char> {
    seq![fill, fill, fill, fill, fill]
}

/// The character of a decimal digit.
pub open spec fn digit(value: int) -> char {
    seq!['0', '1', '2', '3', '4', '5', '6', '7', '8', '9'][value]
}

/// A cell number below one thousand in three decimal digits.
pub open spec fn label(number: int) -> Seq<char> {
    seq![digit(number / 100 % 10), digit(number / 10 % 10), digit(number % 10)]
}

/// The five characters drawn for a cell: its number if it is free, its
/// mark if it is not.
pub open spec fn cell_text(mark: TicTacCharacter, number: int) -> Seq<char> {
    if mark == TicTacCharacter::Null {
        seq![' '] + label(number) + seq![' ']
    } else {
        seq![' ', ' ', mark.glyph(), ' ', ' ']
    }
}

/// The first `count` cells of a line without marks, each followed by `|`.
pub open spec fn rule_prefix(fill: char, count: nat) -> Seq<char>
    decreases count,
{
    if count == 0 {
        Seq::empty()
    } else {
        rule_prefix(fill, (count - 1) as nat) + band(fill) + seq!['|']
    }
}

/// A line without marks across `size` cells, drawn with `fill`.
pub open spec fn rule_line(size: nat, fill: char) -> Seq<char> {
    rule_prefix(fill, (size - 1) as nat) + band(fill) + seq!['\n']
}

/// The first `count` cells of row `r`, each followed by `|`.
pub open spec fn marks_prefix(grid: Grid, r: int, count: nat) -> Seq<char>
    decreases count,
{
    if count == 0 {
        Seq::empty()
    } else {
        marks_prefix(grid, r, (count - 1) as nat) + cell_text(
            grid[r][count - 1],
            grid.len() * r + count,
        ) + seq!['|']
    }
}

/// The line that shows the cells of row `r`.
pub open spec fn marks_line(grid: Grid, r: int) -> Seq<char> {
    marks_prefix(grid, r, (grid.len() - 1) as nat) + cell_text(
        grid[r][grid.len() - 1],
        grid.len() * r + grid.len(),
    ) + seq!['\n']
}

/// The three lines drawn for row `r`: a line of blanks, the cells, and a
/// line of underscores, or of blanks below the last row.
pub open spec fn row_text(grid: Grid, r: int) -> Seq<char> {
    rule_line(grid.len(), ' ') + marks_line(grid, r) + rule_line(
        grid.len(),
        if r == grid.len() - 1 {
            ' '
        } else {
            '_'
        },
    )
}

/// The picture of the first `count` rows.
pub open spec fn rows_text(grid: Grid, count: nat) -> Seq<char>
    decreases count,
{
    if count == 0 {
        Seq::empty()
    } else {
        rows_text(grid, (count - 1) as nat) + row_text(grid, count - 1)
    }
}

/// The picture of the whole table.
pub open spec fn table_text(grid: Grid) -> Seq<char> {
    rows_text(grid, grid.len())
}

/// Returns the text of one decimal digit.
fn digit_text(value: usize) -> (text: &'static str)
    requires
        value < 10,
    ensures
        text@ == seq![digit(value as int)],
{
    proof {
        reveal_strlit("0");
        reveal_strlit("1");
        reveal_strlit("2");
        reveal_strlit("3");
        reveal_strlit("4");
        reveal_strlit("5");
        reveal_strlit("6");
        reveal_strlit("7");
        reveal_strlit("8");
        reveal_strlit("9");
    }
    let text = if value == 0 {
        "0"
    } else if value == 1 {
        "1"
    } else if value == 2 {
        "2"
    } else if value == 3 {
        "3"
    } else if value == 4 {
        "4"
    } else if value == 5 {
        "5"
    } else if value == 6 {
        "6"
    } else if value == 7 {
        "7"
    } else if value == 8 {
        "8"
    } else {
        "9"
    };
    assert(text@ =~= seq![digit(value as int)]);
    text
}

/// Appends the five characters drawn for a cell.
fn push_cell(text: &mut String, mark: TicTacCharacter, number: usize)
    requires
        number < 1000,
    ensures
        final(text)@ == old(text)@ + cell_text(mark, number as int),
{
    proof {
        reveal_strlit(" ");
        reveal_strlit("  X  ");
        reveal_strlit("  O  ");
    }
    match mark {
        TicTacCharacter::Null => {
            text.append(" ");
            text.append(digit_text(number / 100 % 10));
            text.append(digit_text(number / 10 % 10));
            text.append(digit_text(number % 10));
            text.append(" ");
        },
        TicTacCharacter::Tic => {
            text.append("  X  ");
        },
        TicTacCharacter::Tac => {
            text.append("  O  ");
        },
    }
    assert(text@ =~= old(text)@ + cell_text(mark, number as int));
}

/// Appends a line without marks across `size` cells, drawn with
/// underscores if `underlined` and with blanks if not.
fn push_rule(text: &mut String, size: usize, underlined: bool)
    requires
        size > 0,
    ensures
        final(text)@ == old(text)@ + rule_line(
            size as nat,
            if underlined {
                '_'
            } else {
                ' '
            },
        ),
{
    proof {
        reveal_strlit("_____");
        reveal_strlit("     ");
        reveal_strlit("|");
        reveal_strlit("\n");
    }
    let ghost fill = if underlined {
        '_'
    } else {
        ' '
    };
    let piece = if underlined {
        "_____"
    } else {
        "     "
    };
    assert(piece@ =~= band(fill));
    for count in 0..(size - 1)
        invariant
            size > 0,
            piece@ == band(fill),
            "|"@ == seq!['|'],
            text@ == old(text)@ + rule_prefix(fill, count as nat),
    {
        text.append(piece);
        text.append("|");
        assert(text@ =~= old(text)@ + rule_prefix(fill, (count + 1) as nat));
    }
    text.append(piece);
    text.append("\n");
    assert(text@ =~= old(text)@ + rule_line(size as nat, fill));
}

impl Table {
    /// Appends the line that shows the cells of row `r`.
    fn push_marks(&self, text: &mut String, r: usize)
        requires
            self.wf(),
            r < self.grid().len(),
        ensures
            final(text)@ == old(text)@ + marks_line(self.grid(), r as int),
    {
        proof {
            reveal_strlit("|");
            reveal_strlit("\n");
        }
        let size = self.size();
        assert(size * r + size <= 100) by (nonlinear_arith)
            requires
                r < size <= 10,
        ;
        for c in 0..(size - 1)
            invariant
                self.wf(),
                size == self.grid().len(),
                r < size,
                size * r + size <= 100,
                "|"@ == seq!['|'],
                text@ == old(text)@ + marks_prefix(self.grid(), r as int, c as nat),
        {
            push_cell(text, self.at(r, c), size * r + c + 1);
            text.append("|");
            assert(text@ =~= old(text)@ + marks_prefix(self.grid(), r as int, (c + 1) as nat));
        }
        push_cell(text, self.at(r, size - 1), size * r + size);
        text.append("\n");
        assert(text@ =~= old(text)@ + marks_line(self.grid(), r as int));
    }

    /// Draws the table: for every row a line of blanks, the line of its
    /// cells and a line of underscores, the last of which is left blank.
    /// A table without cells gives an empty picture.
    pub fn view(&self) -> (text: String)
        requires
            self.wf(),
        ensures
            text@ == table_text(self.grid()),
    {
        let size = self.size();
        let mut text = String::new();
        for r in 0..size
            invariant
                self.wf(),
                size == self.grid().len(),
                text@ == rows_text(self.grid(), r as nat),
        {
            let ghost before = text@;
            push_rule(&mut text, size, false);
            self.push_marks(&mut text, r);
            push_rule(&mut text, size, r + 1 != size);
            assert(text@ =~= before + row_text(self.grid(), r as int));
        }
        text
    }
}

} // verus!
