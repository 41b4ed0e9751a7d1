use vstd::prelude::*;
use crate::board::Board;
use crate::board::board_state_matches;
use crate::board::boards_cells_equal;
use crate::board::cell_accepts;
use crate::board::covers_ok;
use crate::game_error::GameError;
use crate::game_state::GameState;
use crate::piece::PieceSize;
use crate::piece::size_is_smaller;
use crate::player::Color;
use crate::player::Player;
use crate::player::fresh_piece;
use crate::player::has_size;
use crate::player::initial_inventory;
use crate::player::player_state_matches;
use crate::player::removed_first;

verus! {

/// One running game: the board, the two players (red moves on even turn
/// indices), and the turn counter.
pub struct GameInstance {
    pub board: Board,
    pub player_red: Player,
    pub player_blue: Player,
    pub turn: u32,
}

impl GameInstance {
    /// The board is well formed and each player carries its own color.
    pub open spec fn wf(self) -> bool {
        &&& self.board.wf()
        &&& self.player_red.wf()
        &&& self.player_red.color == Color::Red
        &&& self.player_blue.wf()
        &&& self.player_blue.color == Color::Blue
    }

    /// Whose move it is: the parity of the turn counter is the state.
    pub open spec fn current_color(self) -> Color {
        if self.turn % 2 == 0 {
            Color::Red
        } else {
            Color::Blue
        }
    }

    /// The player whose move it is.
    pub open spec fn current_player(self) -> Player {
        if self.turn % 2 == 0 {
            self.player_red
        } else {
            self.player_blue
        }
    }

    /// A game exactly as `default` creates it: empty board, full
    /// inventories, red to move.
    pub open spec fn is_initial(self) -> bool {
        &&& self.turn == 0
        &&& forall|x: int, y: int|
            0 <= x < 3 && 0 <= y < 3 ==> #[trigger] self.board.cell(x, y) is None
        &&& self.player_red.color == Color::Red
        &&& self.player_red.pieces@ == initial_inventory(Color::Red)
        &&& self.player_blue.color == Color::Blue
        &&& self.player_blue.pieces@ == initial_inventory(Color::Blue)
    }
}

/// Why a put at (x, y) of `size` is rejected, if it is: the current player
/// must still hold the size, and the cell must accept it.
pub open spec fn put_error(pre: GameInstance, x: int, y: int, size: PieceSize) -> Option<
    GameError,
> {
    if !has_size(pre.current_player().pieces@, size) {
        Some(GameError::PieceNotAvailable)
    } else if !cell_accepts(pre.board.cell(x, y), size) {
        Some(GameError::CannotPutPieceHere)
    } else {
        None
    }
}

/// The state after a successful put: the cell covered by a bare piece of
/// the mover's color, the first matching piece gone from the mover's
/// inventory, everything else untouched, and the turn advanced.
pub open spec fn put_ok(
    pre: GameInstance,
    post: GameInstance,
    x: int,
    y: int,
    size: PieceSize,
) -> bool {
    &&& covers_ok(post.board.cell(x, y), pre.board.cell(x, y), fresh_piece(size,
    pre.current_color()))
    &&& forall|i: int, j: int|
        0 <= i < 3 && 0 <= j < 3 && !(i == x && j == y) ==> #[trigger] post.board.cell(i, j)
            == pre.board.cell(i, j)
    &&& if pre.current_color() == Color::Red {
        removed_first(pre.player_red, post.player_red, size) && post.player_blue == pre.player_blue
    } else {
        removed_first(pre.player_blue, post.player_blue, size) && post.player_red == pre.player_red
    }
    &&& post.turn == pre.turn + 1
}

/// Full outcome relation of a put: the exact error and an untouched game,
/// or success and the `put_ok` transition.
pub open spec fn put_outcome(
    pre: GameInstance,
    post: GameInstance,
    r: Result<(), GameError>,
    x: int,
    y: int,
    size: PieceSize,
) -> bool {
    match put_error(pre, x, y, size) {
        Some(e) => r == Err::<(), GameError>(e) && post == pre,
        None => r is Ok && put_ok(pre, post, x, y, size),
    }
}

/// Why a move is rejected, if it is: the origin must be occupied, by a
/// piece of the mover's color, and the uncovered destination must accept
/// the moved piece.
pub open spec fn move_error(
    pre: GameInstance,
    ox: int,
    oy: int,
    dx: int,
    dy: int,
) -> Option<GameError> {
    match pre.board.cell(ox, oy) {
        None => Some(GameError::SquareIsEmpty),
        Some(top) => if top.color != pre.current_color() {
            Some(GameError::NotYourPiece)
        } else {
            let uncovered = if ox == dx && oy == dy {
                top.rest()
            } else {
                pre.board.cell(dx, dy)
            };
            if cell_accepts(uncovered, top.size) {
                None
            } else {
                Some(GameError::CannotPutPieceHere)
            }
        },
    }
}

/// The state after a successful move: the origin's top, stripped of its
/// chain, covers the destination; the origin uncovers what it covered;
/// players untouched; turn advanced.
pub open spec fn move_ok(
    pre: GameInstance,
    post: GameInstance,
    ox: int,
    oy: int,
    dx: int,
    dy: int,
) -> bool {
    match pre.board.cell(ox, oy) {
        None => false,
        Some(top) => {
            let uncovered = if ox == dx && oy == dy {
                top.rest()
            } else {
                pre.board.cell(dx, dy)
            };
            &&& covers_ok(post.board.cell(dx, dy), uncovered, top.stripped())
            &&& !(ox == dx && oy == dy) ==> post.board.cell(ox, oy) == top.rest()
            &&& forall|i: int, j: int|
                0 <= i < 3 && 0 <= j < 3 && !(i == ox && j == oy) && !(i == dx && j == dy)
                    ==> #[trigger] post.board.cell(i, j) == pre.board.cell(i, j)
            &&& post.player_red == pre.player_red
            &&& post.player_blue == pre.player_blue
            &&& post.turn == pre.turn + 1
        },
    }
}

/// Full outcome relation of a move: the exact error with the game left as
/// it was, or success and the `move_ok` transition.
pub open spec fn move_outcome(
    pre: GameInstance,
    post: GameInstance,
    r: Result<(), GameError>,
    ox: int,
    oy: int,
    dx: int,
    dy: int,
) -> bool {
    match move_error(pre, ox, oy, dx, dy) {
        Some(e) => {
            &&& r == Err::<(), GameError>(e)
            &&& boards_cells_equal(post.board, pre.board)
            &&& post.player_red == pre.player_red
            &&& post.player_blue == pre.player_blue
            &&& post.turn == pre.turn
        },
        None => r is Ok && move_ok(pre, post, ox, oy, dx, dy),
    }
}

/// A game snapshot mirrors the instance: board, players red first, turn,
/// and the winner of the position.
pub open spec fn game_state_matches(st: GameState, gi: GameInstance) -> bool {
    &&& board_state_matches(st.board, gi.board)
    &&& st.players@.len() == 2
    &&& player_state_matches(st.players@[0], gi.player_red)
    &&& player_state_matches(st.players@[1], gi.player_blue)
    &&& st.turn == gi.turn
    &&& st.winner_color == gi.board.winner()
}

impl Default for GameInstance {
    /// A fresh game: empty board, two full inventories, red to move.
    fn default() -> (r: GameInstance)
        ensures
            r.wf(),
            r.is_initial(),
    {
        GameInstance {
            board: Board::default(),
            player_red: Player::new(Color::Red),
            player_blue: Player::new(Color::Blue),
            turn: 0,
        }
    }
}

impl GameInstance {
    /// Advances the turn counter by one, handing the move to the other
    /// player.
    pub fn next_turn(&mut self)
        requires
            old(self).turn < u32::MAX,
        ensures
            *final(self) == (GameInstance { turn: (old(self).turn + 1) as u32, ..*old(self) }),
    {
        self.turn = self.turn + 1;
    }

    /// The player whose move it is, by the parity of the turn counter.
    pub fn get_current_player(&mut self) -> (r: &mut Player)
        ensures
            *r == old(self).current_player(),
            old(self).turn % 2 == 0 ==> *final(self) == (GameInstance {
                player_red: *final(r),
                ..*old(self)
            }),
            old(self).turn % 2 != 0 ==> *final(self) == (GameInstance {
                player_blue: *final(r),
                ..*old(self)
            }),
    {
        if self.turn % 2 == 0 {
            &mut self.player_red
        } else {
            &mut self.player_blue
        }
    }

    /// Places a piece of `piece_size` from the current player's inventory
    /// on cell (x, y). The inventory is only charged once the placement is
    /// known to be accepted, so a rejected put never costs a piece; the
    /// turn advances only on success.
    pub fn put_piece(&mut self, x: usize, y: usize, piece_size: PieceSize) -> (r: Result<
        (),
        GameError,
    >)
        requires
            old(self).wf(),
            x < 3,
            y < 3,
            old(self).turn < u32::MAX,
        ensures
            final(self).wf(),
            put_outcome(*old(self), *final(self), r, x as int, y as int, piece_size),
    {
        let available = self.get_current_player().has_piece(piece_size);
        if !available {
            return Err(GameError::PieceNotAvailable);
        }
        let accepts = match self.board.get_piece_size(x, y) {
            None => true,
            Some(top_size) => size_is_smaller(top_size, piece_size),
        };
        if !accepts {
            return Err(GameError::CannotPutPieceHere);
        }
        let piece = match self.get_current_player().remove_piece(piece_size) {
            Ok(piece) => piece,
            Err(e) => {
                proof {
                    assert(false);
                }
                return Err(e);
            },
        };
        match self.board.put_piece(x, y, piece) {
            Ok(()) => {
                self.next_turn();
                Ok(())
            },
            Err((e, _)) => {
                proof {
                    assert(false);
                }
                Err(e)
            },
        }
    }

    /// Moves the current player's top piece at the origin onto the
    /// destination, atomically; the turn advances only on success.
    pub fn move_piece(
        &mut self,
        origin_x: usize,
        origin_y: usize,
        destination_x: usize,
        destination_y: usize,
    ) -> (r: Result<(), GameError>)
        requires
            old(self).wf(),
            origin_x < 3,
            origin_y < 3,
            destination_x < 3,
            destination_y < 3,
            old(self).turn < u32::MAX,
        ensures
            final(self).wf(),
            move_outcome(
                *old(self),
                *final(self),
                r,
                origin_x as int,
                origin_y as int,
                destination_x as int,
                destination_y as int,
            ),
    {
        let piece_color = match self.board.get_piece_color(origin_x, origin_y) {
            None => {
                return Err(GameError::SquareIsEmpty);
            },
            Some(color) => color,
        };
        let current_is_red = self.turn % 2 == 0;
        let matches_current = match (piece_color, current_is_red) {
            (Color::Red, true) => true,
            (Color::Blue, false) => true,
            _ => false,
        };
        if !matches_current {
            return Err(GameError::NotYourPiece);
        }
        match self.board.move_piece(origin_x, origin_y, destination_x, destination_y) {
            Ok(()) => {
                self.next_turn();
                Ok(())
            },
            Err(e) => Err(e),
        }
    }

    pub fn get_piece_size(&self, x: usize, y: usize) -> (r: Option<PieceSize>)
        requires
            self.wf(),
            x < 3,
            y < 3,
        ensures
            r == self.board.top_size(x as int, y as int),
    {
        self.board.get_piece_size(x, y)
    }

    pub fn get_piece_color(&self, x: usize, y: usize) -> (r: Option<Color>)
        requires
            self.wf(),
            x < 3,
            y < 3,
        ensures
            r == self.board.top_color(x as int, y as int),
    {
        self.board.get_piece_color(x, y)
    }

    /// Deep immutable snapshot of the whole game, including the winner of
    /// the current position, if any.
    pub fn to_game_state(&self) -> (r: GameState)
        requires
            self.wf(),
        ensures
            game_state_matches(r, *self),
    {
        let mut players = Vec::new();
        players.push(self.player_red.to_player_state());
        players.push(self.player_blue.to_player_state());
        GameState {
            board: self.board.to_board_state(),
            players,
            turn: self.turn,
            winner_color: self.board.check_win(),
        }
    }
}

/// The turn alternates between the players: after every successful put or
/// move the other color is to move, and after every rejected one the same
/// color is still to move.
pub proof fn lemma_turn_alternates_on_put(
    pre: GameInstance,
    post: GameInstance,
    r: Result<(), GameError>,
    x: int,
    y: int,
    size: PieceSize,
)
    requires
        put_outcome(pre, post, r, x, y, size),
    ensures
        r is Ok ==> post.current_color() != pre.current_color(),
        r is Err ==> post.current_color() == pre.current_color(),
{
}

/// The move counterpart of the turn-alternation law.
pub proof fn lemma_turn_alternates_on_move(
    pre: GameInstance,
    post: GameInstance,
    r: Result<(), GameError>,
    ox: int,
    oy: int,
    dx: int,
    dy: int,
)
    requires
        move_outcome(pre, post, r, ox, oy, dx, dy),
    ensures
        r is Ok ==> post.current_color() != pre.current_color(),
        r is Err ==> post.current_color() == pre.current_color(),
{
}

} // verus!
