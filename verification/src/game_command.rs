use vstd::prelude::*;
use crate::piece::PieceSize;

verus! {

/// What an external producer may ask the engine to do. Coordinates are
/// board coordinates and must lie in 0..3.
#[derive(Clone, Copy, Debug)]
pub enum GameCommand {
    NewGameCommand,
    PutPieceCommand(usize, usize, PieceSize),
    MovePieceCommand(usize, usize, usize, usize),
    ExitCommand,
}

/// Every coordinate the command carries lies on the board.
pub open spec fn command_wf(c: GameCommand) -> bool {
    match c {
        GameCommand::NewGameCommand => true,
        GameCommand::PutPieceCommand(x, y, _) => x < 3 && y < 3,
        GameCommand::MovePieceCommand(ox, oy, dx, dy) => ox < 3 && oy < 3 && dx < 3 && dy < 3,
        GameCommand::ExitCommand => true,
    }
}

} // verus!
