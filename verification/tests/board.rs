use chessboard_view::board::{Piece, PieceKind, Position, Side};

#[test]
fn empty_position_has_no_pieces() {
    let p = Position::empty();
    for rank in 0u8..8 {
        for file in 0u8..8 {
            assert!(p.occupant_at(file, rank).is_none());
        }
    }
}

#[test]
fn set_then_get() {
    let mut p = Position::empty();
    let knight = Piece { kind: PieceKind::Knight, side: Side::Black };
    p.set(2, 5, Some(knight));
    assert_eq!(p.occupant_at(2, 5), Some(knight));
    for rank in 0u8..8 {
        for file in 0u8..8 {
            if (file, rank) != (2, 5) {
                assert_eq!(p.occupant_at(file, rank), None);
            }
        }
    }
}

#[test]
fn set_overwrites() {
    let mut p = Position::empty();
    let pawn = Piece { kind: PieceKind::Pawn, side: Side::White };
    let queen = Piece { kind: PieceKind::Queen, side: Side::White };
    p.set(0, 0, Some(pawn));
    p.set(0, 0, Some(queen));
    assert_eq!(p.occupant_at(0, 0), Some(queen));
    p.set(0, 0, None);
    assert_eq!(p.occupant_at(0, 0), None);
}
