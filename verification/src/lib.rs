//! Rules engine for a two-player stacking tic-tac-toe game.
//!
//! A 3x3 board holds stacks of pieces; a piece may cover another only if it
//! is strictly larger. Each player owns a finite inventory of six pieces.
//! A line of three same-colored top pieces wins. Commands are dispatched to
//! a game instance and every outcome is reported as an event.

pub mod board;
pub mod game;
pub mod game_command;
pub mod game_error;
pub mod game_event;
pub mod game_instance;
pub mod game_state;
pub mod listener;
pub mod parse;
pub mod piece;
pub mod player;
