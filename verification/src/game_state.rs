use vstd::prelude::*;
use crate::piece::Piece;
use crate::piece::PieceSize;
use crate::player::Color;

verus! {

/// Immutable deep copy of one piece stack, top first.
#[derive(Debug)]
pub struct PieceState {
    pub color: Color,
    pub size: PieceSize,
    pub nested_piece: Option<Box<PieceState>>,
}

/// Immutable copy of the whole 3x3 board. `squares[x][y]` is the stack of
/// the cell at row `x`, column `y`, or `None` when that cell is empty.
#[derive(Debug)]
pub struct BoardState {
    pub squares: Vec<Vec<Option<PieceState>>>,
}

/// Immutable copy of a player: color and remaining inventory sizes, in
/// inventory order.
#[derive(Debug)]
pub struct PlayerState {
    pub color: Color,
    pub pieces: Vec<PieceSize>,
}

/// Immutable copy of a whole game: board, both players (red first), the
/// turn counter, and the winner of the position, if any.
#[derive(Debug)]
pub struct GameState {
    pub board: BoardState,
    pub players: Vec<PlayerState>,
    pub turn: u32,
    pub winner_color: Option<Color>,
}

/// `s` is a faithful deep copy of the stack under `p`.
pub open spec fn piece_state_matches(s: PieceState, p: Piece) -> bool
    decreases p,
{
    &&& s.size == p.size
    &&& s.color == p.color
    &&& match (p.nested_piece, s.nested_piece) {
        (None, None) => true,
        (Some(pn), Some(sn)) => piece_state_matches(*sn, *pn),
        _ => false,
    }
}

/// `s` is a faithful copy of an optional stack.
pub open spec fn cell_state_matches(s: Option<PieceState>, c: Option<Piece>) -> bool {
    match (c, s) {
        (None, None) => true,
        (Some(p), Some(ps)) => piece_state_matches(ps, p),
        _ => false,
    }
}

/// The board copy, row by row, as plain sequences.
pub open spec fn board_state_rows(b: BoardState) -> Seq<Seq<Option<PieceState>>> {
    b.squares@.map_values(|row: Vec<Option<PieceState>>| row@)
}

/// Two player copies carry the same color and the same sizes.
pub open spec fn player_state_equiv(a: PlayerState, b: PlayerState) -> bool {
    a.color == b.color && a.pieces@ == b.pieces@
}

/// Two game copies describe the same game, cell by cell and player by
/// player.
pub open spec fn game_state_equiv(a: GameState, b: GameState) -> bool {
    &&& board_state_rows(a.board) == board_state_rows(b.board)
    &&& a.players@.len() == b.players@.len()
    &&& forall|i: int|
        0 <= i < a.players@.len() ==> player_state_equiv(
            #[trigger] a.players@[i],
            b.players@[i],
        )
    &&& a.turn == b.turn
    &&& a.winner_color == b.winner_color
}

impl PieceState {
    /// Deep copy of the stack copy itself.
    fn deep_copy(&self) -> (r: PieceState)
        ensures
            r == *self,
        decreases *self,
    {
        let nested = match &self.nested_piece {
            None => None,
            Some(n) => Some(Box::new(n.deep_copy())),
        };
        PieceState { color: self.color, size: self.size, nested_piece: nested }
    }
}

impl Clone for PieceState {
    fn clone(&self) -> (r: Self)
        ensures
            r == *self,
    {
        self.deep_copy()
    }
}

impl Clone for BoardState {
    fn clone(&self) -> (r: Self)
        ensures
            board_state_rows(r) == board_state_rows(*self),
    {
        let mut squares: Vec<Vec<Option<PieceState>>> = Vec::new();
        let mut x: usize = 0;
        while x < self.squares.len()
            invariant
                x <= self.squares@.len(),
                squares@.len() == x,
                forall|i: int| 0 <= i < x ==> #[trigger] squares@[i]@ == self.squares@[i]@,
            decreases self.squares@.len() - x,
        {
            let row = &self.squares[x];
            let mut new_row: Vec<Option<PieceState>> = Vec::new();
            let mut y: usize = 0;
            while y < row.len()
                invariant
                    y <= row@.len(),
                    new_row@.len() == y,
                    forall|j: int| 0 <= j < y ==> #[trigger] new_row@[j] == row@[j],
                decreases row@.len() - y,
            {
                let cell = match &row[y] {
                    None => None,
                    Some(ps) => Some(ps.clone()),
                };
                new_row.push(cell);
                y = y + 1;
            }
            proof {
                assert(new_row@ =~= row@);
            }
            squares.push(new_row);
            x = x + 1;
        }
        let r = BoardState { squares };
        proof {
            assert(board_state_rows(r) =~= board_state_rows(*self));
        }
        r
    }
}

impl Clone for PlayerState {
    fn clone(&self) -> (r: Self)
        ensures
            player_state_equiv(r, *self),
    {
        let mut pieces: Vec<PieceSize> = Vec::new();
        let mut i: usize = 0;
        while i < self.pieces.len()
            invariant
                i <= self.pieces@.len(),
                pieces@.len() == i,
                forall|j: int| 0 <= j < i ==> #[trigger] pieces@[j] == self.pieces@[j],
            decreases self.pieces@.len() - i,
        {
            pieces.push(self.pieces[i]);
            i = i + 1;
        }
        proof {
            assert(pieces@ =~= self.pieces@);
        }
        PlayerState { color: self.color, pieces }
    }
}

impl Clone for GameState {
    fn clone(&self) -> (r: Self)
        ensures
            game_state_equiv(r, *self),
    {
        let mut players: Vec<PlayerState> = Vec::new();
        let mut i: usize = 0;
        while i < self.players.len()
            invariant
                i <= self.players@.len(),
                players@.len() == i,
                forall|j: int|
                    0 <= j < i ==> player_state_equiv(#[trigger] players@[j], self.players@[j]),
            decreases self.players@.len() - i,
        {
            players.push(self.players[i].clone());
            i = i + 1;
        }
        GameState {
            board: self.board.clone(),
            players,
            turn: self.turn,
            winner_color: self.winner_color,
        }
    }
}

} // verus!
