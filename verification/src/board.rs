use vstd::prelude::*;
use crate::game_error::GameError;
use crate::game_state::BoardState;
use crate::game_state::PieceState;
use crate::game_state::cell_state_matches;
use crate::piece::Piece;
use crate::piece::PieceSize;
use crate::piece::size_lt;
use crate::player::Color;

verus! {

/// A size may land on a cell when the cell is empty or its top piece is
/// strictly smaller.
pub open spec fn cell_accepts(c: Option<Piece>, size: PieceSize) -> bool {
    match c {
        None => true,
        Some(top) => size_lt(top.size, size),
    }
}

/// What a cell looks like after a successful put of `piece`: on an empty
/// cell the piece sits as it came; on an occupied cell the new top carries
/// the incoming size and color and covers exactly the old top, and any
/// chain the incoming piece carried is discarded.
pub open spec fn covers_ok(newc: Option<Piece>, oldc: Option<Piece>, piece: Piece) -> bool {
    match oldc {
        None => newc == Some(piece),
        Some(top) => newc matches Some(n) && n.size == piece.size && n.color == piece.color
            && n.rest() == Some(top),
    }
}

/// Walking outward from (x, y) one (dx, dy) step at a time: every further
/// cell on the line is occupied by a top piece of color `c`; stepping past
/// the board boundary ends the walk successfully.
pub open spec fn line_from(b: Board, x: int, y: int, dx: int, dy: int, c: Color) -> bool
    decreases (if dx == 1 { 2 - x } else { 2 - y }) when dx == 1 || (dx == 0 && dy == 1)
{
    let nx = x + dx;
    let ny = y + dy;
    if nx < 0 || nx > 2 || ny < 0 || ny > 2 {
        true
    } else {
        b.top_color(nx, ny) == Some(c) && line_from(b, nx, ny, dx, dy, c)
    }
}

/// Two boards agree on every cell.
pub open spec fn boards_cells_equal(a: Board, b: Board) -> bool {
    forall|x: int, y: int|
        0 <= x < 3 && 0 <= y < 3 ==> #[trigger] a.cell(x, y) == b.cell(x, y)
}

/// A board snapshot mirrors the board, cell by cell.
pub open spec fn board_state_matches(bs: BoardState, b: Board) -> bool {
    &&& bs.squares@.len() == 3
    &&& forall|x: int| 0 <= x < 3 ==> (#[trigger] bs.squares@[x])@.len() == 3
    &&& forall|x: int, y: int|
        0 <= x < 3 && 0 <= y < 3 ==> cell_state_matches(#[trigger] bs.squares@[x]@[y], b.cell(x, y))
}

/// The 3x3 grid of piece stacks.
pub struct Board {
    squares: Vec<Option<Piece>>,  // nine cells, row-major: cell (x, y) at x * 3 + y
}

impl Default for Board {
    /// A fresh board: every cell is empty.
    fn default() -> (r: Board)
        ensures
            r.wf(),
            forall|x: int, y: int| 0 <= x < 3 && 0 <= y < 3 ==> #[trigger] r.cell(x, y) is None,
    {
        let mut squares: Vec<Option<Piece>> = Vec::new();
        let mut i: usize = 0;
        while i < 9
            invariant
                i <= 9,
                squares@.len() == i,
                forall|j: int| 0 <= j < i ==> #[trigger] squares@[j] is None,
            decreases 9 - i,
        {
            squares.push(None);
            i = i + 1;
        }
        Board { squares }
    }
}

impl Board {
    /// The stack of the cell at row `x`, column `y`.
    pub closed spec fn cell(self, x: int, y: int) -> Option<Piece> {
        self.squares@[x * 3 + y]
    }

    /// The grid holds its nine cells and every stack on it is well formed.
    pub closed spec fn wf(self) -> bool {
        &&& self.squares@.len() == 9
        &&& forall|i: int|
            0 <= i < 9 ==> ((#[trigger] self.squares@[i]) matches Some(p) ==> p.wf())
    }

    /// Every stack on a well-formed board is itself well formed.
    pub proof fn lemma_wf_cell(self, x: int, y: int)
        requires
            self.wf(),
            0 <= x < 3,
            0 <= y < 3,
        ensures
            self.cell(x, y) matches Some(p) ==> p.wf(),
    {
        assert(self.squares@[x * 3 + y] matches Some(p) ==> p.wf());
    }

    /// Color of the top piece at (x, y), if any.
    pub open spec fn top_color(self, x: int, y: int) -> Option<Color> {
        match self.cell(x, y) {
            None => None,
            Some(p) => Some(p.color),
        }
    }

    /// Size of the top piece at (x, y), if any.
    pub open spec fn top_size(self, x: int, y: int) -> Option<PieceSize> {
        match self.cell(x, y) {
            None => None,
            Some(p) => Some(p.size),
        }
    }

    /// All three tops of column `y` show color `c`.
    pub open spec fn col_filled(self, y: int, c: Color) -> bool {
        &&& self.top_color(0, y) == Some(c)
        &&& self.top_color(1, y) == Some(c)
        &&& self.top_color(2, y) == Some(c)
    }

    /// All three tops of row `x` show color `c`.
    pub open spec fn row_filled(self, x: int, c: Color) -> bool {
        &&& self.top_color(x, 0) == Some(c)
        &&& self.top_color(x, 1) == Some(c)
        &&& self.top_color(x, 2) == Some(c)
    }

    /// All three tops of the main diagonal show color `c`.
    pub open spec fn diag_main_filled(self, c: Color) -> bool {
        &&& self.top_color(0, 0) == Some(c)
        &&& self.top_color(1, 1) == Some(c)
        &&& self.top_color(2, 2) == Some(c)
    }

    /// All three tops of the anti diagonal show color `c`.
    pub open spec fn diag_anti_filled(self, c: Color) -> bool {
        &&& self.top_color(0, 2) == Some(c)
        &&& self.top_color(1, 1) == Some(c)
        &&& self.top_color(2, 0) == Some(c)
    }

    /// The color that owns column `y` completely, if any.
    pub open spec fn col_winner(self, y: int) -> Option<Color> {
        if self.cell(0, y) matches Some(p) && self.col_filled(y, p.color) {
            self.top_color(0, y)
        } else {
            None
        }
    }

    /// The color that owns row `x` completely, if any.
    pub open spec fn row_winner(self, x: int) -> Option<Color> {
        if self.cell(x, 0) matches Some(p) && self.row_filled(x, p.color) {
            self.top_color(x, 0)
        } else {
            None
        }
    }

    /// The color that owns the main diagonal, if any.
    pub open spec fn diag_main_winner(self) -> Option<Color> {
        if self.cell(0, 0) matches Some(p) && self.diag_main_filled(p.color) {
            self.top_color(0, 0)
        } else {
            None
        }
    }

    /// The color that owns the anti diagonal, if any.
    pub open spec fn diag_anti_winner(self) -> Option<Color> {
        if self.cell(0, 2) matches Some(p) && self.diag_anti_filled(p.color) {
            self.top_color(0, 2)
        } else {
            None
        }
    }

    /// First winning column in column order.
    pub open spec fn col_scan(self) -> Option<Color> {
        if self.col_winner(0) is Some {
            self.col_winner(0)
        } else if self.col_winner(1) is Some {
            self.col_winner(1)
        } else {
            self.col_winner(2)
        }
    }

    /// First winning row in row order.
    pub open spec fn row_scan(self) -> Option<Color> {
        if self.row_winner(0) is Some {
            self.row_winner(0)
        } else if self.row_winner(1) is Some {
            self.row_winner(1)
        } else {
            self.row_winner(2)
        }
    }

    /// Main diagonal before anti diagonal.
    pub open spec fn diag_scan(self) -> Option<Color> {
        if self.diag_main_winner() is Some {
            self.diag_main_winner()
        } else {
            self.diag_anti_winner()
        }
    }

    /// The winner of the position under the scan precedence: columns, then
    /// rows, then the two diagonals.
    pub open spec fn winner(self) -> Option<Color> {
        if self.col_scan() is Some {
            self.col_scan()
        } else if self.row_scan() is Some {
            self.row_scan()
        } else {
            self.diag_scan()
        }
    }

    /// Some full line of three same-colored tops exists for color `c`.
    pub open spec fn wins(self, c: Color) -> bool {
        ||| exists|y: int| 0 <= y < 3 && self.col_filled(y, c)
        ||| exists|x: int| 0 <= x < 3 && self.row_filled(x, c)
        ||| self.diag_main_filled(c)
        ||| self.diag_anti_filled(c)
    }

    pub fn square_is_empty(&self, x: usize, y: usize) -> (r: bool)
        requires
            self.wf(),
            x < 3,
            y < 3,
        ensures
            r == (self.cell(x as int, y as int) is None),
    {
        match &self.squares[x * 3 + y] {
            None => true,
            _ => false,
        }
    }

    pub fn square_is_not_empty(&self, x: usize, y: usize) -> (r: bool)
        requires
            self.wf(),
            x < 3,
            y < 3,
        ensures
            r == (self.cell(x as int, y as int) is Some),
    {
        !self.square_is_empty(x, y)
    }

    pub fn get_piece_size(&self, x: usize, y: usize) -> (r: Option<PieceSize>)
        requires
            self.wf(),
            x < 3,
            y < 3,
        ensures
            r == self.top_size(x as int, y as int),
    {
        match &self.squares[x * 3 + y] {
            None => None,
            Some(piece) => Some(piece.size),
        }
    }

    pub fn get_piece_color(&self, x: usize, y: usize) -> (r: Option<Color>)
        requires
            self.wf(),
            x < 3,
            y < 3,
        ensures
            r == self.top_color(x as int, y as int),
    {
        match &self.squares[x * 3 + y] {
            None => None,
            Some(piece) => Some(piece.color),
        }
    }

    /// Places `piece` on cell (x, y). An empty cell takes any piece; an
    /// occupied cell only a strictly larger one, whose old top it keeps
    /// covered underneath. A rejected piece is handed back to the caller
    /// and the board stays exactly as it was.
    pub fn put_piece(&mut self, x: usize, y: usize, piece: Piece) -> (r: Result<
        (),
        (GameError, Piece),
    >)
        requires
            old(self).wf(),
            x < 3,
            y < 3,
            piece.wf(),
        ensures
            final(self).wf(),
            forall|i: int, j: int|
                0 <= i < 3 && 0 <= j < 3 && !(i == x && j == y) ==> final(self).cell(i, j) == old(
                    self,
                ).cell(i, j),
            cell_accepts(old(self).cell(x as int, y as int), piece.size) ==> r is Ok && covers_ok(
                final(self).cell(x as int, y as int),
                old(self).cell(x as int, y as int),
                piece,
            ),
            !cell_accepts(old(self).cell(x as int, y as int), piece.size) ==> r == Err::<
                (),
                _,
            >((GameError::CannotPutPieceHere, piece)) && *final(self) == *old(self),
    {
        let idx = x * 3 + y;
        // reject before touching anything, so a failed put leaves the
        // board untouched and the piece goes back to the caller
        let rejected = match &self.squares[idx] {
            None => false,
            Some(current_piece) => current_piece.cannot_be_nested(piece.size),
        };
        if rejected {
            return Err((GameError::CannotPutPieceHere, piece));
        }
        let mut new_top = piece;
        let cell = &mut self.squares[idx];
        match cell.take() {
            None => {
                *cell = Some(new_top);
            },
            Some(current_piece) => {
                new_top.set_nested_piece(current_piece);
                *cell = Some(new_top);
            },
        }
        Ok(())
    }

    /// Detaches and returns the top piece of cell (x, y); the piece it
    /// covered, if any, becomes the new top.
    pub fn remove_piece(&mut self, x: usize, y: usize) -> (r: Result<Piece, GameError>)
        requires
            old(self).wf(),
            x < 3,
            y < 3,
        ensures
            final(self).wf(),
            forall|i: int, j: int|
                0 <= i < 3 && 0 <= j < 3 && !(i == x && j == y) ==> final(self).cell(i, j) == old(
                    self,
                ).cell(i, j),
            match old(self).cell(x as int, y as int) {
                None => r == Err::<Piece, _>(GameError::SquareIsEmpty) && *final(self) == *old(
                    self,
                ),
                Some(top) => r == Ok::<_, GameError>(top.stripped()) && final(self).cell(
                    x as int,
                    y as int,
                ) == top.rest(),
            },
    {
        let idx = x * 3 + y;
        let empty = match &self.squares[idx] {
            None => true,
            Some(_) => false,
        };
        if empty {
            return Err(GameError::SquareIsEmpty);
        }
        let cell = &mut self.squares[idx];
        match cell.take() {
            None => Err(GameError::SquareIsEmpty),  // cannot happen: the cell was checked above
            Some(mut piece) => {
                let new_piece = match piece.remove_nested_piece() {
                    None => None,
                    Some(nested_piece) => Some(*nested_piece),
                };
                *cell = new_piece;
                Ok(piece)
            },
        }
    }

    /// Moves the top piece of the origin cell onto the destination cell,
    /// atomically: when the destination rejects the piece it is restored
    /// to the origin and the whole board is exactly as before the call.
    pub fn move_piece(
        &mut self,
        origin_x: usize,
        origin_y: usize,
        destination_x: usize,
        destination_y: usize,
    ) -> (r: Result<(), GameError>)
        requires
            old(self).wf(),
            origin_x < 3,
            origin_y < 3,
            destination_x < 3,
            destination_y < 3,
        ensures
            final(self).wf(),
            match old(self).cell(origin_x as int, origin_y as int) {
                None => r == Err::<(), _>(GameError::SquareIsEmpty) && *final(self) == *old(self),
                Some(top) => {
                    let moved = top.stripped();
                    let uncovered = if origin_x == destination_x && origin_y == destination_y {
                        top.rest()
                    } else {
                        old(self).cell(destination_x as int, destination_y as int)
                    };
                    if cell_accepts(uncovered, moved.size) {
                        &&& r is Ok
                        &&& covers_ok(
                            final(self).cell(destination_x as int, destination_y as int),
                            uncovered,
                            moved,
                        )
                        &&& !(origin_x == destination_x && origin_y == destination_y)
                            ==> final(self).cell(origin_x as int, origin_y as int) == top.rest()
                        &&& forall|i: int, j: int|
                            0 <= i < 3 && 0 <= j < 3 && !(i == origin_x && j == origin_y) && !(i
                                == destination_x && j == destination_y) ==> final(self).cell(i, j)
                                == old(self).cell(i, j)
                    } else {
                        &&& r == Err::<(), _>(GameError::CannotPutPieceHere)
                        &&& forall|i: int, j: int|
                            0 <= i < 3 && 0 <= j < 3 ==> final(self).cell(i, j) == old(self).cell(
                                i,
                                j,
                            )
                    }
                },
            },
    {
        proof {
            old(self).lemma_wf_cell(origin_x as int, origin_y as int);
        }
        let piece = match self.remove_piece(origin_x, origin_y) {
            Err(e) => {
                return Err(e);
            },
            Ok(piece) => piece,
        };
        match self.put_piece(destination_x, destination_y, piece) {
            Ok(()) => Ok(()),
            Err((e, piece)) => {
                // the destination rejected the piece: restore it to the
                // origin, whose uncovered top is strictly smaller
                let restored = self.put_piece(origin_x, origin_y, piece);
                proof {
                    assert(restored is Ok);
                }
                Err(e)
            },
        }
    }

    /// Same-color continuity from (x, y) outward along (x_add, y_add),
    /// walking one cell at a time until the walk steps past the boundary.
    fn check_line_equals(
        &self,
        x: usize,
        y: usize,
        x_add: isize,
        y_add: isize,
        before_piece: &Piece,
    ) -> (r: bool)
        requires
            self.wf(),
            x < 3,
            y < 3,
            x_add == 1 || (x_add == 0 && y_add == 1),
            -1 <= y_add <= 1,
        ensures
            r == line_from(*self, x as int, y as int, x_add as int, y_add as int,
            before_piece.color),
        decreases (if x_add == 1 { 2 - x as int } else { 2 - y as int }),
    {
        let new_piece_x = x as isize + x_add;
        let new_piece_y = y as isize + y_add;

        if new_piece_x < 0 || new_piece_x > 2 || new_piece_y < 0 || new_piece_y > 2 {
            return true;
        }
        let nx = new_piece_x as usize;
        let ny = new_piece_y as usize;
        match &self.squares[nx * 3 + ny] {
            None => false,
            Some(new_piece) => before_piece.color == new_piece.color && self.check_line_equals(
                nx,
                ny,
                x_add,
                y_add,
                new_piece,
            ),
        }
    }

    /// First row fully owned by one color, scanning rows top to bottom.
    fn check_row_win(&self) -> (r: Option<Color>)
        requires
            self.wf(),
        ensures
            r == self.row_scan(),
    {
        proof {
            reveal_with_fuel(line_from, 4);
        }
        let mut x: usize = 0;
        while x < 3
            invariant
                self.wf(),
                x <= 3,
                forall|i: int| 0 <= i < x ==> self.row_winner(i) is None,
            decreases 3 - x,
        {
            proof {
                reveal_with_fuel(line_from, 4);
            }
            match &self.squares[x * 3] {
                None => {},
                Some(piece) => {
                    if self.check_line_equals(x, 0, 0, 1, piece) {
                        return Some(piece.color);
                    }
                },
            }
            x = x + 1;
        }
        None
    }

    /// First column fully owned by one color, scanning columns left to
    /// right.
    fn check_column_win(&self) -> (r: Option<Color>)
        requires
            self.wf(),
        ensures
            r == self.col_scan(),
    {
        let mut y: usize = 0;
        while y < 3
            invariant
                self.wf(),
                y <= 3,
                forall|i: int| 0 <= i < y ==> self.col_winner(i) is None,
            decreases 3 - y,
        {
            proof {
                reveal_with_fuel(line_from, 4);
            }
            match &self.squares[y] {
                None => {},
                Some(piece) => {
                    if self.check_line_equals(0, y, 1, 0, piece) {
                        return Some(piece.color);
                    }
                },
            }
            y = y + 1;
        }
        None
    }

    /// Owner of the main diagonal, else of the anti diagonal, if any.
    fn check_diagonal_win(&self) -> (r: Option<Color>)
        requires
            self.wf(),
        ensures
            r == self.diag_scan(),
    {
        proof {
            reveal_with_fuel(line_from, 4);
        }
        match &self.squares[0] {
            None => {},
            Some(piece) => {
                if self.check_line_equals(0, 0, 1, 1, piece) {
                    return Some(piece.color);
                }
            },
        }
        match &self.squares[2] {
            None => None,
            Some(piece) => {
                if self.check_line_equals(0, 2, 1, -1, piece) {
                    Some(piece.color)
                } else {
                    None
                }
            },
        }
    }

    /// Scans columns, then rows, then the two diagonals, and returns the
    /// first winning color found, if any.
    pub fn check_win(&self) -> (r: Option<Color>)
        requires
            self.wf(),
        ensures
            r == self.winner(),
    {
        match self.check_column_win() {
            Some(color) => Some(color),
            None => match self.check_row_win() {
                Some(color) => Some(color),
                None => self.check_diagonal_win(),
            },
        }
    }

    /// Deep immutable copy of the grid, for delivery to observers.
    pub fn to_board_state(&self) -> (r: BoardState)
        requires
            self.wf(),
        ensures
            board_state_matches(r, *self),
    {
        let mut squares: Vec<Vec<Option<PieceState>>> = Vec::new();
        let mut x: usize = 0;
        while x < 3
            invariant
                self.wf(),
                x <= 3,
                squares@.len() == x,
                forall|i: int| 0 <= i < x ==> (#[trigger] squares@[i])@.len() == 3,
                forall|i: int, j: int|
                    0 <= i < x && 0 <= j < 3 ==> cell_state_matches(
                        #[trigger] squares@[i]@[j],
                        self.cell(i, j),
                    ),
            decreases 3 - x,
        {
            let mut row: Vec<Option<PieceState>> = Vec::new();
            let mut y: usize = 0;
            while y < 3
                invariant
                    self.wf(),
                    x < 3,
                    y <= 3,
                    row@.len() == y,
                    forall|j: int|
                        0 <= j < y ==> cell_state_matches(
                            #[trigger] row@[j],
                            self.cell(x as int, j),
                        ),
                decreases 3 - y,
            {
                let cell = match &self.squares[x * 3 + y] {
                    None => None,
                    Some(piece) => Some(piece.to_piece_state()),
                };
                row.push(cell);
                y = y + 1;
            }
            squares.push(row);
            x = x + 1;
        }
        BoardState { squares }
    }
}

/// A covered piece is kept intact: after a legal put on an occupied cell,
/// the new top covers exactly the cell's old stack, so removing the new
/// top uncovers that stack unchanged, same size and same color on top.
pub proof fn lemma_covered_piece_resurfaces(oldc: Option<Piece>, newc: Option<Piece>, piece: Piece)
    requires
        oldc is Some,
        covers_ok(newc, oldc, piece),
    ensures
        newc matches Some(n) && n.rest() == oldc && n.stripped().size == piece.size
            && n.stripped().color == piece.color,
{
}

/// The win scan finds a color if and only if some full column, row, or
/// diagonal carries three same-colored tops; and the color it returns
/// owns such a line.
pub proof fn lemma_check_win_iff(b: Board)
    ensures
        (b.winner() is Some) <==> (exists|c: Color| b.wins(c)),
        forall|c: Color| b.winner() == Some(c) ==> b.wins(c),
{
    if b.winner() is Some {
        let c = b.winner()->Some_0;
        assert(b.wins(c)) by {
            if b.col_scan() is Some {
                if b.col_winner(0) is Some {
                    assert(b.col_filled(0, c));
                } else if b.col_winner(1) is Some {
                    assert(b.col_filled(1, c));
                } else {
                    assert(b.col_filled(2, c));
                }
            } else if b.row_scan() is Some {
                if b.row_winner(0) is Some {
                    assert(b.row_filled(0, c));
                } else if b.row_winner(1) is Some {
                    assert(b.row_filled(1, c));
                } else {
                    assert(b.row_filled(2, c));
                }
            }
        }
    }
    if exists|c: Color| b.wins(c) {
        let c = choose|c: Color| b.wins(c);
        if exists|y: int| 0 <= y < 3 && b.col_filled(y, c) {
            let y = choose|y: int| 0 <= y < 3 && b.col_filled(y, c);
            assert(b.col_winner(y) == Some(c));
            assert(b.col_scan() is Some);
        } else if exists|x: int| 0 <= x < 3 && b.row_filled(x, c) {
            let x = choose|x: int| 0 <= x < 3 && b.row_filled(x, c);
            assert(b.row_winner(x) == Some(c));
            assert(b.row_scan() is Some);
        } else if b.diag_main_filled(c) {
            assert(b.diag_main_winner() == Some(c));
        } else {
            assert(b.diag_anti_winner() == Some(c));
        }
    }
}

} // verus!
