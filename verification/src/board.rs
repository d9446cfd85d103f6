//! The abstract board: sides, piece kinds, coordinates, and positions.

use vstd::prelude::*;

verus! {

/// The side a piece belongs to.
#[derive(Clone, Copy, PartialEq, Eq, Structural, Debug)]
pub enum Side {
    White,
    Black,
}

/// The six chess piece kinds.
#[derive(Clone, Copy, PartialEq, Eq, Structural, Debug)]
pub enum PieceKind {
    Pawn,
    Knight,
    Bishop,
    Rook,
    Queen,
    King,
}

/// One piece: a kind together with the side that owns it.
#[derive(Clone, Copy, PartialEq, Eq, Structural, Debug)]
pub struct Piece {
    pub kind: PieceKind,
    pub side: Side,
}

/// What one square holds: a piece, or nothing.
pub type Occupant = Option<Piece>;

/// A board coordinate: file ordinal 0..=7 (files a..=h) and rank ordinal
/// 0..=7 (ranks 1..=8).
#[derive(Clone, Copy, PartialEq, Eq, Structural, Debug)]
pub struct Coordinate {
    pub file: u8,
    pub rank: u8,
}

impl Coordinate {
    /// Both ordinals lie on the board.
    pub open spec fn wf(self) -> bool {
        self.file < 8 && self.rank < 8
    }
}

/// Index of a coordinate in a 64-square sequence, rank-major (the order the
/// chess engine numbers its squares in).
pub open spec fn square_index(file: int, rank: int) -> int {
    rank * 8 + file
}

/// A full position: all 64 squares, each resolving to an occupant.
///
/// Viewed as a sequence of 64 occupants indexed by [`square_index`].
#[derive(Clone, PartialEq, Debug)]
pub struct Position {
    squares: Vec<Occupant>,
}

impl View for Position {
    type V = Seq<Occupant>;

    closed spec fn view(&self) -> Seq<Occupant> {
        self.squares@
    }
}

impl Position {
    /// A position is well formed when it covers exactly 64 squares.
    pub open spec fn wf(self) -> bool {
        self@.len() == 64
    }

    /// The empty position: no piece on any square.
    pub fn empty() -> (p: Position)
        ensures
            p.wf(),
            forall|i: int| 0 <= i < 64 ==> p@[i] is None,
    {
        let mut squares: Vec<Occupant> = Vec::new();
        let mut i: usize = 0;
        while i < 64
            invariant
                i <= 64,
                squares@.len() == i,
                forall|k: int| 0 <= k < i ==> squares@[k] is None,
            decreases 64 - i,
        {
            squares.push(None);
            i += 1;
        }
        Position { squares }
    }

    /// Put `occupant` on the square at (file, rank), leaving every other
    /// square as it was.
    pub fn set(&mut self, file: u8, rank: u8, occupant: Occupant)
        requires
            old(self).wf(),
            file < 8,
            rank < 8,
        ensures
            final(self).wf(),
            final(self)@ == old(self)@.update(
                square_index(file as int, rank as int),
                occupant,
            ),
    {
        let idx: usize = rank as usize * 8 + file as usize;
        self.squares.set(idx, occupant);
    }

    /// The occupant of the square at (file, rank).
    pub fn occupant_at(&self, file: u8, rank: u8) -> (r: Occupant)
        requires
            self.wf(),
            file < 8,
            rank < 8,
        ensures
            r == self@[square_index(file as int, rank as int)],
    {
        self.squares[rank as usize * 8 + file as usize]
    }
}

} // verus!
