//! One game between two players: who they are, the table they play on, and
//! whose turn it is.

use vstd::prelude::*;
use crate::error::ErrorKind;
use crate::grid::{
    blank, has_won, is_full, law_blank_grid, lemma_mark_helps_no_opponent, lemma_with_cell,
    placed, playable, well_formed, Grid,
};
use crate::mark::TicTacCharacter;
use crate::table::Table;

verus! {

/// How an accepted move leaves the game.
#[derive(Clone, Copy, Debug, PartialEq, Eq, Structural)]
pub enum MotionResult {
    /// The player who moved has won; the game is over.
    Win(TicTacCharacter),
    /// The table is full and the player who moved has not won; the game is
    /// over without a winner.
    Draw,
    /// The game goes on and it is the other player's turn.
    Continue,
}

/// A game as a mathematical value.
pub struct GameView {
    /// The name of the player who moves first.
    pub player_one: Seq<char>,
    /// The name of the player who moves second.
    pub player_two: Seq<char>,
    /// The table.
    pub grid: Grid,
    /// The mark of the player who moves next.
    pub turn: TicTacCharacter,
}

impl GameView {
    /// A game was started if it has a table to play on.
    pub open spec fn started(self) -> bool {
        self.grid.len() > 0
    }

    /// The table is well formed, and it is some player's turn exactly if
    /// the game was started.
    pub open spec fn wf(self) -> bool {
        well_formed(self.grid) && (self.started() <==> self.turn != TicTacCharacter::Null)
    }

    /// The game is over: a player has won or no cell is free. Only a new
    /// game leads on from here.
    pub open spec fn over(self) -> bool {
        ||| has_won(self.grid, TicTacCharacter::Tic)
        ||| has_won(self.grid, TicTacCharacter::Tac)
        ||| is_full(self.grid)
    }

    /// The game that begins when two players sit down at a blank table of
    /// the given size: the first player is to move.
    pub open spec fn fresh(player_one: Seq<char>, player_two: Seq<char>, size: nat) -> GameView {
        GameView { player_one, player_two, grid: blank(size), turn: TicTacCharacter::Tic }
    }

    /// What the player to move is told when marking the cell with the given
    /// linear number: why the move is turned down, or how it leaves the
    /// game.
    pub open spec fn outcome(self, index: int) -> Result<MotionResult, ErrorKind> {
        match placed(self.grid, index, self.turn) {
            Err(kind) => Err(kind),
            Ok(grid) => if has_won(grid, self.turn) {
                Ok(MotionResult::Win(self.turn))
            } else if is_full(grid) {
                Ok(MotionResult::Draw)
            } else {
                Ok(MotionResult::Continue)
            },
        }
    }

    /// The game after the player to move has asked to mark the cell with
    /// the given linear number. A move that is turned down changes nothing;
    /// an accepted one marks the cell, and passes the turn on exactly if
    /// the game goes on.
    pub open spec fn after(self, index: int) -> GameView {
        match placed(self.grid, index, self.turn) {
            Err(_) => self,
            Ok(grid) => GameView {
                grid,
                turn: if self.outcome(index) == Ok::<MotionResult, ErrorKind>(
                    MotionResult::Continue,
                ) {
                    self.turn.opponent()
                } else {
                    self.turn
                },
                ..self
            },
        }
    }

    /// The turn passes to the other player after every move that lets the
    /// game go on, and stays where it is after a move that is turned down
    /// or ends the game; a move that is turned down changes nothing at all.
    pub proof fn law_turn_alternates(self, index: int)
        requires
            self.wf(),
        ensures
            self.after(index).wf(),
            self.after(index).player_one == self.player_one,
            self.after(index).player_two == self.player_two,
            self.outcome(index) == Ok::<MotionResult, ErrorKind>(MotionResult::Continue) ==> {
                &&& self.after(index).turn == self.turn.opponent()
                &&& self.after(index).turn != self.turn
            },
            self.outcome(index) != Ok::<MotionResult, ErrorKind>(MotionResult::Continue)
                ==> self.after(index).turn == self.turn,
            self.outcome(index) is Err ==> self.after(index) == self,
    {
        if placed(self.grid, index, self.turn) is Ok {
            lemma_with_cell(self.grid, index, self.turn);
        }
    }

    /// A new game is in progress, whatever was played before.
    pub proof fn law_fresh_game_in_progress(player_one: Seq<char>, player_two: Seq<char>, size: nat)
        requires
            playable(size as int),
        ensures
            Self::fresh(player_one, player_two, size).wf(),
            Self::fresh(player_one, player_two, size).started(),
            !is_full(Self::fresh(player_one, player_two, size).grid),
    {
        law_blank_grid(size);
    }

    /// A game in progress is over after a move exactly if the move is
    /// reported as a win or a draw: a move that lets the game go on, or is
    /// turned down, leaves it in progress.
    pub proof fn law_over_when_reported(self, index: int)
        requires
            self.wf(),
            !self.over(),
        ensures
            self.after(index).over() <==> (self.outcome(index) is Ok && self.outcome(index)
                != Ok::<MotionResult, ErrorKind>(MotionResult::Continue)),
            self.outcome(index) == Ok::<MotionResult, ErrorKind>(
                MotionResult::Win(self.turn),
            ) ==> has_won(self.after(index).grid, self.turn),
            self.outcome(index) == Ok::<MotionResult, ErrorKind>(MotionResult::Draw) ==> {
                &&& is_full(self.after(index).grid)
                &&& !has_won(self.after(index).grid, TicTacCharacter::Tic)
                &&& !has_won(self.after(index).grid, TicTacCharacter::Tac)
            },
    {
        if placed(self.grid, index, self.turn) is Ok {
            lemma_with_cell(self.grid, index, self.turn);
            if has_won(self.after(index).grid, self.turn.opponent()) {
                lemma_mark_helps_no_opponent(self.grid, index, self.turn);
            }
        }
    }

    /// Two moves in a row that both let the game go on bring the turn back
    /// to the player who made the first of them.
    pub proof fn law_turn_returns(self, first: int, second: int)
        requires
            self.wf(),
            self.outcome(first) == Ok::<MotionResult, ErrorKind>(MotionResult::Continue),
            self.after(first).outcome(second) == Ok::<MotionResult, ErrorKind>(
                MotionResult::Continue,
            ),
        ensures
            self.after(first).after(second).turn == self.turn,
    {
        self.law_turn_alternates(first);
        self.after(first).law_turn_alternates(second);
    }
}

/// A game between two players. It is created without a table, started
/// with [`Game::start_new_game`], advanced one move at a time with
/// [`Game::motion`], and may be started anew at any time.
#[derive(Clone, Debug, PartialEq, Eq)]
pub struct Game {
    pub(crate) player_one: String,
    pub(crate) player_two: String,
    pub(crate) table: Table,
    pub(crate) motions_character: TicTacCharacter,
}

impl View for Game {
    type V = GameView;

    closed spec fn view(&self) -> GameView {
        GameView {
            player_one: self.player_one@,
            player_two: self.player_two@,
            grid: self.table.grid(),
            turn: self.motions_character,
        }
    }
}

impl Game {
    /// The game is in a state that the rules allow.
    pub open spec fn wf(&self) -> bool {
        self@.wf()
    }

    /// Puts a game together from its parts: the two names, the table and
    /// the mark of the player to move.
    pub(crate) fn resume(
        player_one: String,
        player_two: String,
        table: Table,
        motions_character: TicTacCharacter,
    ) -> (game: Self)
        ensures
            game@ == (GameView {
                player_one: player_one@,
                player_two: player_two@,
                grid: table.grid(),
                turn: motions_character,
            }),
    {
        Game { player_one, player_two, table, motions_character }
    }

    /// Takes over the players, the table and the turn of another game.
    pub fn set_as(&mut self, game: Game)
        ensures
            final(self)@ == game@,
    {
        self.player_one = game.player_one;
        self.player_two = game.player_two;
        self.table = game.table;
        self.motions_character = game.motions_character;
    }

    /// Starts a new game between the two named players on a blank table of
    /// the given size, with the first player to move. Whatever was played
    /// before is discarded. A size the game is not played on is turned down
    /// and leaves the game as it was.
    pub fn start_new_game(&mut self, name_first: String, name_second: String, size: usize) -> (result:
        Result<(), ErrorKind>)
        ensures
            playable(size as int) ==> {
                &&& result == Ok::<(), ErrorKind>(())
                &&& final(self)@ == GameView::fresh(name_first@, name_second@, size as nat)
                &&& final(self).wf()
            },
            !playable(size as int) ==> {
                &&& result == Err::<(), ErrorKind>(ErrorKind::InvalidSize)
                &&& final(self)@ == old(self)@
            },
    {
        if size < crate::grid::MIN_SIZE || size > crate::grid::MAX_SIZE {
            return Err(ErrorKind::InvalidSize);
        }
        self.player_one = name_first;
        self.player_two = name_second;
        self.table = Table::create_with(size);
        self.motions_character = TicTacCharacter::Tic;
        Ok(())
    }

    /// Lets the player whose turn it is mark the cell with the given linear
    /// number, counted from zero row by row. A move that is turned down
    /// leaves the game untouched. An accepted move marks the cell; the
    /// player has then won, or the table is full and the game is drawn, or
    /// the turn passes to the other player.
    pub fn motion(&mut self, index: usize) -> (result: Result<MotionResult, ErrorKind>)
        requires
            old(self).wf(),
        ensures
            final(self).wf(),
            result == old(self)@.outcome(index as int),
            final(self)@ == old(self)@.after(index as int),
    {
        proof {
            old(self)@.law_turn_alternates(index as int);
        }
        match self.table.insert(index, self.motions_character) {
            Ok(_) => {
                if self.table.check_win(self.motions_character) {
                    return Ok(MotionResult::Win(self.motions_character));
                }
                if self.table.filed() {
                    return Ok(MotionResult::Draw);
                }
                self.motions_character = self.motions_character.anti();
                Ok(MotionResult::Continue)
            },
            Err(kind) => Err(kind),
        }
    }

    /// Returns the name of the player who moves first.
    pub fn player_one(&self) -> (name: &String)
        ensures
            name@ == self@.player_one,
    {
        &self.player_one
    }

    /// Returns the name of the player who moves second.
    pub fn player_two(&self) -> (name: &String)
        ensures
            name@ == self@.player_two,
    {
        &self.player_two
    }

    /// Returns the name of the player whose turn it is: the first player
    /// if the first player's mark is to be placed next, otherwise the
    /// second.
    pub fn current_player(&self) -> (name: &String)
        ensures
            name@ == if self@.turn == TicTacCharacter::Tic {
                self@.player_one
            } else {
                self@.player_two
            },
    {
        if self.motions_character == TicTacCharacter::Tic {
            &self.player_one
        } else {
            &self.player_two
        }
    }

    /// Returns the table the game is played on.
    pub fn table(&self) -> (table: &Table)
        ensures
            table.grid() == self@.grid,
    {
        &self.table
    }

    /// Returns the mark of the player whose turn it is.
    pub fn motions_character(&self) -> (mark: TicTacCharacter)
        ensures
            mark == self@.turn,
    {
        self.motions_character
    }
}

impl Default for Game {
    /// A game that was not started yet: no names, no table, nobody's turn.
    fn default() -> (game: Self)
        ensures
            game.wf(),
            game@ == (GameView {
                player_one: Seq::empty(),
                player_two: Seq::empty(),
                grid: Seq::empty(),
                turn: TicTacCharacter::Null,
            }),
    {
        Game {
            player_one: String::new(),
            player_two: String::new(),
            table: Table::default(),
            motions_character: TicTacCharacter::Null,
        }
    }
}

} // verus!
