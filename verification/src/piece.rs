use vstd::prelude::*;
use crate::game_state::PieceState;
use crate::game_state::piece_state_matches;
use crate::player::Color;

verus! {

/// The three piece sizes, totally ordered Small < Medium < Big.
#[derive(Clone, Copy, Debug, PartialEq, Eq, Structural)]
pub enum PieceSize {
    Small,
    Medium,
    Big,
}

/// Position of a size in the total order Small < Medium < Big.
pub open spec fn size_rank(s: PieceSize) -> int {
    match s {
        PieceSize::Small => 0,
        PieceSize::Medium => 1,
        PieceSize::Big => 2,
    }
}

/// Strict order on sizes; the only comparison the placement rule uses.
pub open spec fn size_lt(a: PieceSize, b: PieceSize) -> bool {
    size_rank(a) < size_rank(b)
}

/// Runs the size comparison `size_lt` in executable code.
pub fn size_is_smaller(a: PieceSize, b: PieceSize) -> (r: bool)
    ensures
        r == size_lt(a, b),
{
    match (a, b) {
        (PieceSize::Small, PieceSize::Medium) => true,
        (PieceSize::Small, PieceSize::Big) => true,
        (PieceSize::Medium, PieceSize::Big) => true,
        _ => false,
    }
}

/// One placed piece: a size, a color, and the optional piece it covers.
/// The chain of covered pieces models a physical stack, top first.
#[derive(Debug)]
pub struct Piece {
    pub size: PieceSize,
    pub color: Color,
    pub nested_piece: Option<Box<Piece>>,
}

impl Piece {
    /// A stack is well formed when every covered piece is strictly smaller
    /// than the piece above it.
    pub open spec fn wf(self) -> bool
        decreases self,
    {
        match self.nested_piece {
            None => true,
            Some(n) => size_lt(n.size, self.size) && n.wf(),
        }
    }

    /// The same piece with its covered chain detached.
    pub open spec fn stripped(self) -> Piece {
        Piece { nested_piece: None, ..self }
    }

    /// The covered chain as an optional piece of its own.
    pub open spec fn rest(self) -> Option<Piece> {
        match self.nested_piece {
            None => None,
            Some(n) => Some(*n),
        }
    }

    pub fn new(piece_size: PieceSize, color: Color) -> (r: Piece)
        ensures
            r.size == piece_size,
            r.color == color,
            r.nested_piece is None,
    {
        Piece { size: piece_size, color, nested_piece: None }
    }

    /// Detaches and returns the covered chain, leaving this piece bare.
    pub fn remove_nested_piece(&mut self) -> (r: Option<Box<Piece>>)
        ensures
            *final(self) == old(self).stripped(),
            r == old(self).nested_piece,
    {
        self.nested_piece.take()
    }

    /// A piece of size `piece_size` may cover this piece exactly when it is
    /// strictly larger than this piece.
    pub fn can_be_nested(&self, piece_size: PieceSize) -> (r: bool)
        ensures
            r == size_lt(self.size, piece_size),
    {
        size_is_smaller(self.size, piece_size)
    }

    pub fn cannot_be_nested(&self, piece_size: PieceSize) -> (r: bool)
        ensures
            r == !size_lt(self.size, piece_size),
    {
        !self.can_be_nested(piece_size)
    }

    /// Puts `nested_piece` under this piece, replacing any covered chain.
    pub fn set_nested_piece(&mut self, nested_piece: Piece)
        ensures
            final(self).size == old(self).size,
            final(self).color == old(self).color,
            final(self).rest() == Some(nested_piece),
    {
        self.nested_piece = Some(Box::new(nested_piece));
    }

    /// Deep immutable copy of the whole stack, for delivery to observers.
    pub fn to_piece_state(&self) -> (r: PieceState)
        ensures
            piece_state_matches(r, *self),
        decreases *self,
    {
        let nested_state = match &self.nested_piece {
            None => None,
            Some(n) => Some(Box::new(n.to_piece_state())),
        };
        PieceState { color: self.color, size: self.size, nested_piece: nested_state }
    }
}

} // verus!
