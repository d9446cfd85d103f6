use chessboard_view::board::{Piece, PieceKind, Position, Side};
use chessboard_view::engine::starting_position;
use chessboard_view::icons::icon_for;
use chessboard_view::projection::{DisplayMode, Orientation, ThemeColor, project};

#[test]
fn every_coordinate_appears_exactly_once() {
    let p = starting_position();
    for orientation in [Orientation::Normal, Orientation::Flipped] {
        for mode in [DisplayMode::Plain, DisplayMode::Labeled] {
            let g = project(&p, orientation, mode);
            let mut seen = [0u32; 64];
            for row in &g.rows {
                for cell in row {
                    let c = cell.coordinate;
                    assert!(c.file < 8 && c.rank < 8);
                    seen[(c.rank * 8 + c.file) as usize] += 1;
                }
            }
            assert!(seen.iter().all(|&n| n == 1));
        }
    }
}

#[test]
fn background_color_ignores_orientation() {
    let p = starting_position();
    let normal = project(&p, Orientation::Normal, DisplayMode::Plain);
    let flipped = project(&p, Orientation::Flipped, DisplayMode::Plain);
    let mut colors = [[None; 8]; 8];
    for row in &normal.rows {
        for cell in row {
            colors[cell.coordinate.rank as usize][cell.coordinate.file as usize] =
                Some(cell.background);
        }
    }
    for row in &flipped.rows {
        for cell in row {
            let expected = colors[cell.coordinate.rank as usize][cell.coordinate.file as usize];
            assert_eq!(Some(cell.background), expected);
        }
    }
}

#[test]
fn adjacent_squares_differ_in_color() {
    let p = Position::empty();
    let g = project(&p, Orientation::Normal, DisplayMode::Plain);
    for i in 0..8 {
        for j in 0..8 {
            if j + 1 < 8 {
                assert_ne!(g.rows[i][j].background, g.rows[i][j + 1].background);
            }
            if i + 1 < 8 {
                assert_ne!(g.rows[i][j].background, g.rows[i + 1][j].background);
            }
        }
    }
}

#[test]
fn orientation_symmetry_in_plain_mode() {
    let p = starting_position();
    let normal = project(&p, Orientation::Normal, DisplayMode::Plain);
    let flipped = project(&p, Orientation::Flipped, DisplayMode::Plain);
    for i in 0..8 {
        for j in 0..8 {
            assert_eq!(normal.rows[i][j], flipped.rows[7 - i][7 - j]);
        }
    }
}

#[test]
fn labeled_mode_places_eight_plus_eight_labels() {
    let p = starting_position();
    for orientation in [Orientation::Normal, Orientation::Flipped] {
        let g = project(&p, orientation, DisplayMode::Labeled);
        let mut rank_labels = 0;
        let mut file_labels = 0;
        let mut both = 0;
        for (i, row) in g.rows.iter().enumerate() {
            for (j, cell) in row.iter().enumerate() {
                assert_eq!(cell.rank_label.is_some(), j == 0);
                assert_eq!(cell.file_label.is_some(), i == 7);
                if cell.rank_label.is_some() {
                    rank_labels += 1;
                }
                if cell.file_label.is_some() {
                    file_labels += 1;
                }
                if cell.rank_label.is_some() && cell.file_label.is_some() {
                    both += 1;
                }
            }
        }
        assert_eq!(rank_labels, 8);
        assert_eq!(file_labels, 8);
        assert_eq!(both, 1);
    }
}

#[test]
fn rank_and_file_label_values() {
    let p = Position::empty();
    let normal = project(&p, Orientation::Normal, DisplayMode::Labeled);
    let letters = ['a', 'b', 'c', 'd', 'e', 'f', 'g', 'h'];
    for i in 0..8 {
        assert_eq!(normal.rows[i][0].rank_label, Some(8 - i as u8));
        assert_eq!(normal.rows[7][i].file_label, Some(letters[i]));
    }
    let flipped = project(&p, Orientation::Flipped, DisplayMode::Labeled);
    for i in 0..8 {
        assert_eq!(flipped.rows[i][0].rank_label, Some(i as u8 + 1));
        assert_eq!(flipped.rows[7][i].file_label, Some(letters[7 - i]));
    }
}

#[test]
fn plain_mode_has_zero_labels() {
    let p = starting_position();
    for orientation in [Orientation::Normal, Orientation::Flipped] {
        let g = project(&p, orientation, DisplayMode::Plain);
        for row in &g.rows {
            for cell in row {
                assert!(cell.rank_label.is_none());
                assert!(cell.file_label.is_none());
            }
        }
    }
}

#[test]
fn piece_icons_resolve_through_the_table() {
    let mut p = Position::empty();
    let bishop = Piece { kind: PieceKind::Bishop, side: Side::Black };
    p.set(6, 3, Some(bishop));
    let g = project(&p, Orientation::Normal, DisplayMode::Plain);
    for row in &g.rows {
        for cell in row {
            if cell.coordinate.file == 6 && cell.coordinate.rank == 3 {
                let icon = cell.piece_icon.as_ref().expect("occupied square has an icon");
                assert_eq!(icon.url, icon_for(bishop).url);
                assert_eq!(icon.description, "piece image");
            } else {
                assert!(cell.piece_icon.is_none());
            }
        }
    }
}

#[test]
fn start_position_normal_top_row_is_black_back_rank() {
    let p = starting_position();
    let g = project(&p, Orientation::Normal, DisplayMode::Plain);
    let back_rank = [
        PieceKind::Rook,
        PieceKind::Knight,
        PieceKind::Bishop,
        PieceKind::Queen,
        PieceKind::King,
        PieceKind::Bishop,
        PieceKind::Knight,
        PieceKind::Rook,
    ];
    for j in 0..8 {
        let cell = &g.rows[0][j];
        assert_eq!(cell.coordinate.rank, 7);
        assert_eq!(cell.coordinate.file, j as u8);
        let expected = Piece { kind: back_rank[j], side: Side::Black };
        let icon = cell.piece_icon.as_ref().expect("back rank is occupied");
        assert_eq!(icon.url, icon_for(expected).url);
    }
    // (rank 7 + file 0) is odd, so the top-left square is theme color B.
    assert_eq!(g.rows[0][0].background, ThemeColor::Light);
}

#[test]
fn start_position_flipped_top_row_is_white_back_rank_reversed() {
    let p = starting_position();
    let g = project(&p, Orientation::Flipped, DisplayMode::Plain);
    let back_rank = [
        PieceKind::Rook,
        PieceKind::Knight,
        PieceKind::Bishop,
        PieceKind::Queen,
        PieceKind::King,
        PieceKind::Bishop,
        PieceKind::Knight,
        PieceKind::Rook,
    ];
    let normal = project(&p, Orientation::Normal, DisplayMode::Plain);
    let mut colors = [[None; 8]; 8];
    for row in &normal.rows {
        for cell in row {
            colors[cell.coordinate.rank as usize][cell.coordinate.file as usize] =
                Some(cell.background);
        }
    }
    for j in 0..8 {
        let cell = &g.rows[0][j];
        assert_eq!(cell.coordinate.rank, 0);
        assert_eq!(cell.coordinate.file, 7 - j as u8);
        let expected = Piece { kind: back_rank[7 - j], side: Side::White };
        let icon = cell.piece_icon.as_ref().expect("back rank is occupied");
        assert_eq!(icon.url, icon_for(expected).url);
        assert_eq!(
            Some(cell.background),
            colors[cell.coordinate.rank as usize][cell.coordinate.file as usize],
        );
    }
}

#[test]
fn projection_is_idempotent() {
    let p = starting_position();
    for orientation in [Orientation::Normal, Orientation::Flipped] {
        for mode in [DisplayMode::Plain, DisplayMode::Labeled] {
            let g1 = project(&p, orientation, mode);
            let g2 = project(&p, orientation, mode);
            assert_eq!(g1, g2);
        }
    }
}
