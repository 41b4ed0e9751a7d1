use vstd::prelude::*;
use crate::game_error::GameError;
use crate::game_state::PlayerState;
use crate::piece::Piece;
use crate::piece::PieceSize;

verus! {

/// The two player colors. Red always moves on even turn indices.
#[derive(Clone, Copy, Debug, PartialEq, Eq, Structural)]
pub enum Color {
    Red,
    Blue,
}

/// A piece as it sits in an inventory: bare, of the owner's color.
pub open spec fn fresh_piece(size: PieceSize, color: Color) -> Piece {
    Piece { size, color, nested_piece: None }
}

/// How many pieces of size `size` a sequence holds.
pub open spec fn count_of(s: Seq<Piece>, size: PieceSize) -> nat
    decreases s.len(),
{
    if s.len() == 0 {
        0
    } else {
        count_of(s.drop_last(), size) + if s.last().size == size {
            1nat
        } else {
            0nat
        }
    }
}

/// Some piece of size `size` occurs in the sequence.
pub open spec fn has_size(s: Seq<Piece>, size: PieceSize) -> bool {
    exists|i: int| 0 <= i < s.len() && (#[trigger] s[i]).size == size
}

/// The six pieces a player starts with: two of each size, smallest first,
/// all of the player's color.
pub open spec fn initial_inventory(color: Color) -> Seq<Piece> {
    seq![
        fresh_piece(PieceSize::Small, color),
        fresh_piece(PieceSize::Small, color),
        fresh_piece(PieceSize::Medium, color),
        fresh_piece(PieceSize::Medium, color),
        fresh_piece(PieceSize::Big, color),
        fresh_piece(PieceSize::Big, color),
    ]
}

/// `post` is `pre` with the first piece of size `size` taken out and
/// nothing else changed.
pub open spec fn removed_first(pre: Player, post: Player, size: PieceSize) -> bool {
    &&& post.color == pre.color
    &&& exists|i: int|
        0 <= i < pre.pieces@.len() && (#[trigger] pre.pieces@[i]).size == size && (forall|j: int|
            0 <= j < i ==> (#[trigger] pre.pieces@[j]).size != size) && post.pieces@
            == pre.pieces@.remove(i)
}

/// A player snapshot carries the player's color and exactly the sizes of
/// the remaining inventory, in order.
pub open spec fn player_state_matches(ps: PlayerState, p: Player) -> bool {
    &&& ps.color == p.color
    &&& ps.pieces@.len() == p.pieces@.len()
    &&& forall|i: int| 0 <= i < p.pieces@.len() ==> #[trigger] ps.pieces@[i] == p.pieces@[i].size
}

/// A sequence holds no piece of a size exactly when its count of that
/// size is zero.
pub proof fn lemma_count_zero_iff_none(s: Seq<Piece>, size: PieceSize)
    ensures
        (count_of(s, size) == 0) <==> !has_size(s, size),
    decreases s.len(),
{
    if s.len() > 0 {
        lemma_count_zero_iff_none(s.drop_last(), size);
        if s.last().size == size {
            assert(s[s.len() - 1].size == size);
        } else {
            if has_size(s.drop_last(), size) {
                let i = choose|i: int|
                    0 <= i < s.drop_last().len() && (#[trigger] s.drop_last()[i]).size == size;
                assert(s[i].size == size);
            }
            if has_size(s, size) {
                let i = choose|i: int| 0 <= i < s.len() && (#[trigger] s[i]).size == size;
                assert(s.drop_last()[i].size == size);
            }
        }
    }
}

/// Taking the piece at position `i` out lowers the count of its size by
/// one and leaves the count of every other size unchanged.
pub proof fn lemma_count_remove(s: Seq<Piece>, i: int, size: PieceSize)
    requires
        0 <= i < s.len(),
    ensures
        count_of(s.remove(i), size) == count_of(s, size) - (if s[i].size == size {
            1int
        } else {
            0int
        }),
    decreases s.len(),
{
    if i == s.len() - 1 {
        assert(s.remove(i) =~= s.drop_last());
    } else {
        assert(s.remove(i).drop_last() =~= s.drop_last().remove(i));
        assert(s.remove(i).last() == s.last());
        lemma_count_remove(s.drop_last(), i, size);
    }
}

/// A player's inventory starts with exactly two pieces of each size.
pub proof fn lemma_initial_inventory_counts(color: Color)
    ensures
        count_of(initial_inventory(color), PieceSize::Small) == 2,
        count_of(initial_inventory(color), PieceSize::Medium) == 2,
        count_of(initial_inventory(color), PieceSize::Big) == 2,
{
    reveal_with_fuel(count_of, 7);
    let s = initial_inventory(color);
    assert(s.drop_last() =~= initial_inventory(color).take(5));
    assert(s.take(5).drop_last() =~= s.take(4));
    assert(s.take(4).drop_last() =~= s.take(3));
    assert(s.take(3).drop_last() =~= s.take(2));
    assert(s.take(2).drop_last() =~= s.take(1));
    assert(s.take(1).drop_last() =~= s.take(0));
    assert(s.take(0).len() == 0);
    assert(count_of(s, PieceSize::Small) == 2);
    assert(count_of(s, PieceSize::Medium) == 2);
    assert(count_of(s, PieceSize::Big) == 2);
}

/// A removal consumes exactly one piece of the requested size, no piece
/// of any other size, and no removal ever puts a piece back.
pub proof fn lemma_removal_consumes_one(pre: Player, post: Player, size: PieceSize)
    requires
        removed_first(pre, post, size),
    ensures
        count_of(post.pieces@, size) == count_of(pre.pieces@, size) - 1,
        forall|other: PieceSize|
            other != size ==> count_of(post.pieces@, other) == count_of(pre.pieces@, other),
        post.pieces@.len() == pre.pieces@.len() - 1,
{
    let i = choose|i: int|
        0 <= i < pre.pieces@.len() && (#[trigger] pre.pieces@[i]).size == size && (forall|j: int|
            0 <= j < i ==> (#[trigger] pre.pieces@[j]).size != size) && post.pieces@
            == pre.pieces@.remove(i);
    lemma_count_zero_iff_none(pre.pieces@, size);
    lemma_count_remove(pre.pieces@, i, size);
    assert forall|other: PieceSize| other != size implies count_of(post.pieces@, other) == count_of(
        pre.pieces@,
        other,
    ) by {
        lemma_count_remove(pre.pieces@, i, other);
    }
}

/// A player: a color and the inventory of pieces it still owns. Pieces
/// only ever leave the inventory; none is ever returned to it.
pub struct Player {
    pub color: Color,
    pub pieces: Vec<Piece>,
}

impl Player {
    /// Every inventory piece is bare and carries the player's color.
    pub open spec fn wf(self) -> bool {
        forall|i: int|
            0 <= i < self.pieces@.len() ==> #[trigger] self.pieces@[i] == fresh_piece(
                self.pieces@[i].size,
                self.color,
            )
    }

    /// Seeds the inventory with exactly two pieces of each size, smallest
    /// first.
    pub fn new(color: Color) -> (r: Player)
        ensures
            r.color == color,
            r.pieces@ =~= initial_inventory(color),
            r.wf(),
    {
        let mut pieces: Vec<Piece> = Vec::new();
        pieces.push(Piece::new(PieceSize::Small, color));
        pieces.push(Piece::new(PieceSize::Small, color));
        pieces.push(Piece::new(PieceSize::Medium, color));
        pieces.push(Piece::new(PieceSize::Medium, color));
        pieces.push(Piece::new(PieceSize::Big, color));
        pieces.push(Piece::new(PieceSize::Big, color));
        Player { color, pieces }
    }

    /// Whether a piece of size `piece_size` is still available.
    pub fn has_piece(&self, piece_size: PieceSize) -> (r: bool)
        ensures
            r == exists|i: int|
                0 <= i < self.pieces@.len() && (#[trigger] self.pieces@[i]).size == piece_size,
    {
        let mut i: usize = 0;
        while i < self.pieces.len()
            invariant
                i <= self.pieces@.len(),
                forall|j: int| 0 <= j < i ==> (#[trigger] self.pieces@[j]).size != piece_size,
            decreases self.pieces@.len() - i,
        {
            if self.pieces[i].size == piece_size {
                return true;
            }
            i = i + 1;
        }
        false
    }

    /// Hands the first inventory piece of the requested size out, removing
    /// it for good; fails with `PieceNotAvailable` when none is left.
    pub fn remove_piece(&mut self, piece_size: PieceSize) -> (r: Result<Piece, GameError>)
        ensures
            final(self).color == old(self).color,
            match r {
                Ok(p) => exists|i: int|
                    0 <= i < old(self).pieces@.len() && (#[trigger] old(self).pieces@[i]).size
                        == piece_size && (forall|j: int|
                        0 <= j < i ==> (#[trigger] old(self).pieces@[j]).size != piece_size) && p
                        == old(self).pieces@[i] && final(self).pieces@ == old(
                        self,
                    ).pieces@.remove(i),
                Err(e) => e == GameError::PieceNotAvailable && *final(self) == *old(self) && forall|
                    i: int,
                |
                    0 <= i < old(self).pieces@.len() ==> (#[trigger] old(self).pieces@[i]).size
                        != piece_size,
            },
    {
        let mut i: usize = 0;
        while i < self.pieces.len()
            invariant
                i <= self.pieces@.len(),
                *self == *old(self),
                forall|j: int| 0 <= j < i ==> (#[trigger] self.pieces@[j]).size != piece_size,
            decreases self.pieces@.len() - i,
        {
            if self.pieces[i].size == piece_size {
                return Ok(self.pieces.remove(i));
            }
            i = i + 1;
        }
        Err(GameError::PieceNotAvailable)
    }

    /// Color plus the list of remaining piece sizes, in inventory order.
    pub fn to_player_state(&self) -> (r: PlayerState)
        ensures
            r.color == self.color,
            r.pieces@.len() == self.pieces@.len(),
            forall|i: int|
                0 <= i < self.pieces@.len() ==> #[trigger] r.pieces@[i] == self.pieces@[i].size,
    {
        let mut sizes: Vec<PieceSize> = Vec::new();
        let mut i: usize = 0;
        while i < self.pieces.len()
            invariant
                i <= self.pieces@.len(),
                sizes@.len() == i,
                forall|j: int| 0 <= j < i ==> #[trigger] sizes@[j] == self.pieces@[j].size,
            decreases self.pieces@.len() - i,
        {
            sizes.push(self.pieces[i].size);
            i = i + 1;
        }
        PlayerState { color: self.color, pieces: sizes }
    }
}

} // verus!
