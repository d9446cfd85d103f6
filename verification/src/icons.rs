//! The fixed piece-to-icon lookup table: 6 kinds times 2 sides, 12 entries.

use vstd::prelude::*;
use crate::board::{Piece, PieceKind, Side};

verus! {

/// An image reference for one piece: a source locator plus a short
/// accessible description.
#[derive(Clone, PartialEq, Debug)]
pub struct IconRef {
    pub url: String,
    pub description: String,
}

/// The source locator the lookup table assigns to each (kind, side) pair.
pub open spec fn spec_icon_url(kind: PieceKind, side: Side) -> Seq<char> {
    match (kind, side) {
        (PieceKind::Pawn, Side::Black) => "https://upload.wikimedia.org/wikipedia/commons/c/cd/Chess_pdt60.png"@,
        (PieceKind::Pawn, Side::White) => "https://upload.wikimedia.org/wikipedia/commons/0/04/Chess_plt60.png"@,
        (PieceKind::Knight, Side::Black) => "https://upload.wikimedia.org/wikipedia/commons/f/f1/Chess_ndt60.png"@,
        (PieceKind::Knight, Side::White) => "https://upload.wikimedia.org/wikipedia/commons/2/28/Chess_nlt60.png"@,
        (PieceKind::Bishop, Side::Black) => "https://upload.wikimedia.org/wikipedia/commons/8/81/Chess_bdt60.png"@,
        (PieceKind::Bishop, Side::White) => "https://upload.wikimedia.org/wikipedia/commons/9/9b/Chess_blt60.png"@,
        (PieceKind::Rook, Side::Black) => "https://upload.wikimedia.org/wikipedia/commons/a/a0/Chess_rdt60.png"@,
        (PieceKind::Rook, Side::White) => "https://upload.wikimedia.org/wikipedia/commons/5/5c/Chess_rlt60.png"@,
        (PieceKind::Queen, Side::Black) => "https://upload.wikimedia.org/wikipedia/commons/a/af/Chess_qdt60.png"@,
        (PieceKind::Queen, Side::White) => "https://upload.wikimedia.org/wikipedia/commons/4/49/Chess_qlt60.png"@,
        (PieceKind::King, Side::Black) => "https://upload.wikimedia.org/wikipedia/commons/e/e3/Chess_kdt60.png"@,
        (PieceKind::King, Side::White) => "https://upload.wikimedia.org/wikipedia/commons/3/3b/Chess_klt60.png"@,
    }
}

/// The accessible description every piece image carries.
pub open spec fn spec_icon_description() -> Seq<char> {
    "piece image"@
}

/// Resolve a piece to its icon reference through the fixed 12-entry table.
/// The match is exhaustive over both enums, so every combination resolves.
pub fn icon_for(piece: Piece) -> (r: IconRef)
    ensures
        r.url@ == spec_icon_url(piece.kind, piece.side),
        r.description@ == spec_icon_description(),
{
    let url: &str = match (piece.kind, piece.side) {
        (PieceKind::Pawn, Side::Black) => "https://upload.wikimedia.org/wikipedia/commons/c/cd/Chess_pdt60.png",
        (PieceKind::Pawn, Side::White) => "https://upload.wikimedia.org/wikipedia/commons/0/04/Chess_plt60.png",
        (PieceKind::Knight, Side::Black) => "https://upload.wikimedia.org/wikipedia/commons/f/f1/Chess_ndt60.png",
        (PieceKind::Knight, Side::White) => "https://upload.wikimedia.org/wikipedia/commons/2/28/Chess_nlt60.png",
        (PieceKind::Bishop, Side::Black) => "https://upload.wikimedia.org/wikipedia/commons/8/81/Chess_bdt60.png",
        (PieceKind::Bishop, Side::White) => "https://upload.wikimedia.org/wikipedia/commons/9/9b/Chess_blt60.png",
        (PieceKind::Rook, Side::Black) => "https://upload.wikimedia.org/wikipedia/commons/a/a0/Chess_rdt60.png",
        (PieceKind::Rook, Side::White) => "https://upload.wikimedia.org/wikipedia/commons/5/5c/Chess_rlt60.png",
        (PieceKind::Queen, Side::Black) => "https://upload.wikimedia.org/wikipedia/commons/a/af/Chess_qdt60.png",
        (PieceKind::Queen, Side::White) => "https://upload.wikimedia.org/wikipedia/commons/4/49/Chess_qlt60.png",
        (PieceKind::King, Side::Black) => "https://upload.wikimedia.org/wikipedia/commons/e/e3/Chess_kdt60.png",
        (PieceKind::King, Side::White) => "https://upload.wikimedia.org/wikipedia/commons/3/3b/Chess_klt60.png",
    };
    IconRef { url: url.to_owned(), description: "piece image".to_owned() }
}

} // verus!
