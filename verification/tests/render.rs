use chessboard_view::engine::starting_position;
use chessboard_view::projection::{DisplayMode, Orientation, ThemeColor, project};
use chessboard_view::render::{Anchor, render};

#[test]
fn rendered_cells_keep_background_and_images() {
    let p = starting_position();
    let g = project(&p, Orientation::Normal, DisplayMode::Plain);
    let tree = render(&g);
    assert_eq!(tree.rows.len(), 8);
    for (i, row) in tree.rows.iter().enumerate() {
        assert_eq!(row.len(), 8);
        for (j, visual) in row.iter().enumerate() {
            let cell = &g.rows[i][j];
            assert_eq!(visual.background, cell.background);
            match (&cell.piece_icon, &visual.image) {
                (Some(icon), Some(image)) => {
                    assert_eq!(image.url, icon.url);
                    assert_eq!(image.description, icon.description);
                }
                (None, None) => {}
                _ => panic!("image overlay must mirror the cell's icon"),
            }
            assert!(visual.rank_text.is_none());
            assert!(visual.file_text.is_none());
        }
    }
}

#[test]
fn rendered_labels_use_glyphs_anchors_and_contrast_colors() {
    let p = starting_position();
    let g = project(&p, Orientation::Normal, DisplayMode::Labeled);
    let tree = render(&g);
    let digits = ['8', '7', '6', '5', '4', '3', '2', '1'];
    let letters = ['a', 'b', 'c', 'd', 'e', 'f', 'g', 'h'];
    for i in 0..8 {
        let label = tree.rows[i][0].rank_text.expect("left column carries rank labels");
        assert_eq!(label.glyph, digits[i]);
        assert_eq!(label.anchor, Anchor::TopLeft);
        let expected_color = match tree.rows[i][0].background {
            ThemeColor::Dark => ThemeColor::Light,
            ThemeColor::Light => ThemeColor::Dark,
        };
        assert_eq!(label.color, expected_color);

        let label = tree.rows[7][i].file_text.expect("bottom row carries file labels");
        assert_eq!(label.glyph, letters[i]);
        assert_eq!(label.anchor, Anchor::BottomRight);
        let expected_color = match tree.rows[7][i].background {
            ThemeColor::Dark => ThemeColor::Light,
            ThemeColor::Light => ThemeColor::Dark,
        };
        assert_eq!(label.color, expected_color);
    }
    for i in 0..8 {
        for j in 0..8 {
            assert_eq!(tree.rows[i][j].rank_text.is_some(), j == 0);
            assert_eq!(tree.rows[i][j].file_text.is_some(), i == 7);
        }
    }
}
