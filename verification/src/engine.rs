//! The stateless facade over the external chess engine: reads a board
//! snapshot square by square and turns it into the library's own `Position`.

use vstd::prelude::*;
use crate::board::{Occupant, Piece, PieceKind, Position, Side, square_index};

verus! {

#[verifier::external_type_specification]
#[verifier::external_body]
pub struct ExBoard(chess::Board);

/// What the engine's board holds: the occupant of each of the 64 squares,
/// rank-major as the engine numbers them.
pub uninterp spec fn board_occupants(board: chess::Board) -> Seq<Occupant>;

/// The kind component of an occupant.
pub open spec fn occupant_kind(occupant: Occupant) -> Option<PieceKind> {
    match occupant {
        Some(p) => Some(p.kind),
        None => None,
    }
}

/// The side component of an occupant.
pub open spec fn occupant_side(occupant: Occupant) -> Option<Side> {
    match occupant {
        Some(p) => Some(p.side),
        None => None,
    }
}

/// The piece kind standing on `file` in each side's back rank at the start
/// of a game.
pub open spec fn back_rank_kind(file: int) -> PieceKind {
    if file == 0 || file == 7 {
        PieceKind::Rook
    } else if file == 1 || file == 6 {
        PieceKind::Knight
    } else if file == 2 || file == 5 {
        PieceKind::Bishop
    } else if file == 3 {
        PieceKind::Queen
    } else {
        PieceKind::King
    }
}

/// The occupant of (file, rank) in the standard chess starting position.
pub open spec fn start_occupant(file: int, rank: int) -> Occupant {
    if rank == 0 {
        Some(Piece { kind: back_rank_kind(file), side: Side::White })
    } else if rank == 1 {
        Some(Piece { kind: PieceKind::Pawn, side: Side::White })
    } else if rank == 6 {
        Some(Piece { kind: PieceKind::Pawn, side: Side::Black })
    } else if rank == 7 {
        Some(Piece { kind: back_rank_kind(file), side: Side::Black })
    } else {
        None
    }
}

/// The standard starting position as a 64-square sequence.
pub open spec fn start_occupants() -> Seq<Occupant> {
    Seq::new(64, |i: int| start_occupant(i % 8, i / 8))
}

/// Relies on chess::Board::piece_on (and Square::make_square with
/// Rank::from_index and File::from_index to form the square): the kind of
/// the piece on the square at (file, rank), if any.
#[verifier::external_body]
fn piece_kind_on(board: &chess::Board, file: u8, rank: u8) -> (r: Option<PieceKind>)
    requires
        file < 8,
        rank < 8,
    ensures
        r == occupant_kind(board_occupants(*board)[square_index(file as int, rank as int)]),
{
    let sq = chess::Square::make_square(
        chess::Rank::from_index(rank as usize),
        chess::File::from_index(file as usize),
    );
    board.piece_on(sq).map(|p| match p {
        chess::Piece::Pawn => PieceKind::Pawn,
        chess::Piece::Knight => PieceKind::Knight,
        chess::Piece::Bishop => PieceKind::Bishop,
        chess::Piece::Rook => PieceKind::Rook,
        chess::Piece::Queen => PieceKind::Queen,
        chess::Piece::King => PieceKind::King,
    })
}

/// Relies on chess::Board::color_on (and Square::make_square with
/// Rank::from_index and File::from_index to form the square): the side of
/// the piece on the square at (file, rank), if any.
#[verifier::external_body]
fn side_on(board: &chess::Board, file: u8, rank: u8) -> (r: Option<Side>)
    requires
        file < 8,
        rank < 8,
    ensures
        r == occupant_side(board_occupants(*board)[square_index(file as int, rank as int)]),
{
    let sq = chess::Square::make_square(
        chess::Rank::from_index(rank as usize),
        chess::File::from_index(file as usize),
    );
    board.color_on(sq).map(|c| match c {
        chess::Color::White => Side::White,
        chess::Color::Black => Side::Black,
    })
}

/// Relies on chess::Board::default: the standard chess starting position.
#[verifier::external_body]
fn default_board() -> (board: chess::Board)
    ensures
        board_occupants(board) == start_occupants(),
{
    chess::Board::default()
}

/// The occupant the engine's board has on the square at (file, rank).
pub fn occupant_on_board(board: &chess::Board, file: u8, rank: u8) -> (r: Occupant)
    requires
        file < 8,
        rank < 8,
    ensures
        r == board_occupants(*board)[square_index(file as int, rank as int)],
{
    match piece_kind_on(board, file, rank) {
        None => None,
        Some(kind) => {
            let side = side_on(board, file, rank);
            Some(Piece { kind, side: side.unwrap() })
        },
    }
}

/// Adapt an engine board snapshot into the library's own position, reading
/// every one of the 64 squares.
pub fn position_from_board(board: &chess::Board) -> (p: Position)
    ensures
        p.wf(),
        forall|f: int, r: int|
            0 <= f < 8 && 0 <= r < 8 ==> #[trigger] p@[square_index(f, r)]
                == board_occupants(*board)[square_index(f, r)],
{
    let mut p = Position::empty();
    let mut rank: u8 = 0;
    while rank < 8
        invariant
            p.wf(),
            rank <= 8,
            forall|f: int, r: int|
                0 <= f < 8 && 0 <= r < rank ==> #[trigger] p@[square_index(f, r)]
                    == board_occupants(*board)[square_index(f, r)],
        decreases 8 - rank,
    {
        let mut file: u8 = 0;
        while file < 8
            invariant
                p.wf(),
                rank < 8,
                file <= 8,
                forall|f: int, r: int|
                    0 <= f < 8 && 0 <= r < rank ==> #[trigger] p@[square_index(f, r)]
                        == board_occupants(*board)[square_index(f, r)],
                forall|f: int|
                    0 <= f < file ==> #[trigger] p@[square_index(f, rank as int)]
                        == board_occupants(*board)[square_index(f, rank as int)],
            decreases 8 - file,
        {
            let occupant = occupant_on_board(board, file, rank);
            p.set(file, rank, occupant);
            file += 1;
        }
        rank += 1;
    }
    p
}

/// The standard starting position, read from the chess engine.
pub fn starting_position() -> (p: Position)
    ensures
        p.wf(),
        forall|f: int, r: int|
            0 <= f < 8 && 0 <= r < 8 ==> #[trigger] p@[square_index(f, r)]
                == start_occupant(f, r),
{
    let board = default_board();
    let p = position_from_board(&board);
    proof {
        assert forall|f: int, r: int| 0 <= f < 8 && 0 <= r < 8 implies #[trigger] p@[square_index(
            f,
            r,
        )] == start_occupant(f, r) by {
            let i = square_index(f, r);
            assert(0 <= i < 64);
            assert(start_occupants()[i] == start_occupant(i % 8, i / 8));
            assert(i % 8 == f && i / 8 == r);
        }
    }
    p
}

} // verus!
