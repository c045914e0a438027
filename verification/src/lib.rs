//! A two-player tic-tac-toe engine for square tables of variable size.
//!
//! The crate holds the rules of the game and nothing that talks to the
//! outside world:
//!
//! - [`mark`]: the three states of a cell;
//! - [`grid`]: the mathematical model of the table, its cell numbering and
//!   its winning lines;
//! - [`table`]: the table itself, with move validation and win detection;
//! - [`render`]: the picture of the table that is shown to the players;
//! - [`game`]: one game, which alternates the turns of the two players;
//! - [`codec`]: the flat record from which a game is resumed;
//! - [`dialogue`]: the words with which the players answer the game;
//! - [`error`]: the reasons for which a request is turned down.

pub mod codec;
pub mod dialogue;
pub mod error;
pub mod game;
pub mod grid;
pub mod mark;
pub mod render;
pub mod table;
