use vstd::prelude::*;

verus! {

/// Every way a command or a board operation can be rejected. All failures
/// are values of this type; no rule of the engine ever panics.
#[derive(Clone, Copy, Debug, PartialEq, Eq, Structural)]
pub enum GameError {
    /// A piece command was issued while no game is running.
    CurrentlyNoGame,
    /// The incoming piece is not strictly larger than the cell's top piece.
    CannotPutPieceHere,
    /// A removal or a move started from an empty cell.
    SquareIsEmpty,
    /// The current player has no piece of the requested size left.
    PieceNotAvailable,
    /// The moved piece does not belong to the current player.
    NotYourPiece,
    /// A failure that no other kind describes.
    UnknownError,
}

} // verus!
