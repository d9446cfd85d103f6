//! The renderer: turns a projected grid into a toolkit-agnostic visual tree
//! of colored square containers, centered piece images and anchored label
//! glyphs. A thin adapter outside the library maps this tree onto whatever
//! composition primitives a concrete UI toolkit offers.

use vstd::prelude::*;
use crate::projection::{
    CellSpec, Grid, ThemeColor, grid_labels_wf, grid_shape, opposite_color, opposite_color_at,
};

verus! {

/// Where a label glyph is anchored within its square.
#[derive(Clone, Copy, PartialEq, Eq, Structural, Debug)]
pub enum Anchor {
    TopLeft,
    BottomRight,
}

/// An image element: source locator and accessible description, centered
/// within its square.
#[derive(Clone, PartialEq, Debug)]
pub struct ImageVisual {
    pub url: String,
    pub description: String,
}

/// A one-glyph text element with its font color and anchor.
#[derive(Clone, Copy, PartialEq, Eq, Structural, Debug)]
pub struct LabelVisual {
    pub glyph: char,
    pub color: ThemeColor,
    pub anchor: Anchor,
}

/// One square of the visual tree: a background-colored container with the
/// optional overlays stacked on it.
#[derive(Clone, PartialEq, Debug)]
pub struct CellVisual {
    pub background: ThemeColor,
    pub image: Option<ImageVisual>,
    pub rank_text: Option<LabelVisual>,
    pub file_text: Option<LabelVisual>,
}

/// The composed visual tree: a vertical sequence of rows, each a horizontal
/// sequence of square cells, centered as a unit.
#[derive(Clone, PartialEq, Debug)]
pub struct VisualTree {
    pub rows: Vec<Vec<CellVisual>>,
}

/// The glyph for a rank number 1..=8.
pub open spec fn rank_glyph(rank_number: int) -> char {
    if rank_number == 1 {
        '1'
    } else if rank_number == 2 {
        '2'
    } else if rank_number == 3 {
        '3'
    } else if rank_number == 4 {
        '4'
    } else if rank_number == 5 {
        '5'
    } else if rank_number == 6 {
        '6'
    } else if rank_number == 7 {
        '7'
    } else {
        '8'
    }
}

/// The glyph for a rank number 1..=8.
pub fn rank_glyph_at(rank_number: u8) -> (c: char)
    requires
        1 <= rank_number <= 8,
    ensures
        c == rank_glyph(rank_number as int),
{
    match rank_number {
        1 => '1',
        2 => '2',
        3 => '3',
        4 => '4',
        5 => '5',
        6 => '6',
        7 => '7',
        _ => '8',
    }
}

/// Everything `render` promises of the visual for one cell: the container
/// carries the cell's background; the image overlay is present exactly for
/// an occupied square and repeats its icon reference; each label overlay is
/// present exactly where the cell carries the matching label, shows its
/// glyph, is anchored to its corner, and uses the theme color opposite the
/// cell's own background.
pub open spec fn cell_rendered(cell: CellSpec, visual: CellVisual) -> bool {
    &&& visual.background == cell.background
    &&& match cell.piece_icon {
        None => visual.image is None,
        Some(ic) => {
            &&& visual.image matches Some(img)
            &&& img.url@ == ic.url@
            &&& img.description@ == ic.description@
        },
    }
    &&& match cell.rank_label {
        None => visual.rank_text is None,
        Some(n) => visual.rank_text == Some(
            LabelVisual {
                glyph: rank_glyph(n as int),
                color: opposite_color(cell.background),
                anchor: Anchor::TopLeft,
            },
        ),
    }
    &&& match cell.file_label {
        None => visual.file_text is None,
        Some(letter) => visual.file_text == Some(
            LabelVisual {
                glyph: letter,
                color: opposite_color(cell.background),
                anchor: Anchor::BottomRight,
            },
        ),
    }
}

/// Compose the visual for one cell.
fn render_cell(cell: &CellSpec) -> (visual: CellVisual)
    requires
        cell.rank_label matches Some(n) ==> 1 <= n <= 8,
    ensures
        cell_rendered(*cell, visual),
{
    let image: Option<ImageVisual> = match &cell.piece_icon {
        Some(ic) => Some(
            ImageVisual { url: ic.url.clone(), description: ic.description.clone() },
        ),
        None => None,
    };
    let rank_text: Option<LabelVisual> = match cell.rank_label {
        Some(n) => Some(
            LabelVisual {
                glyph: rank_glyph_at(n),
                color: opposite_color_at(cell.background),
                anchor: Anchor::TopLeft,
            },
        ),
        None => None,
    };
    let file_text: Option<LabelVisual> = match cell.file_label {
        Some(letter) => Some(
            LabelVisual {
                glyph: letter,
                color: opposite_color_at(cell.background),
                anchor: Anchor::BottomRight,
            },
        ),
        None => None,
    };
    CellVisual { background: cell.background, image, rank_text, file_text }
}

/// Compose a well-formed grid into the visual tree: one row of square cells
/// per grid row, rows stacked top to bottom.
pub fn render(grid: &Grid) -> (tree: VisualTree)
    requires
        grid_shape(*grid),
        grid_labels_wf(*grid),
    ensures
        tree.rows@.len() == 8,
        forall|i: int| 0 <= i < 8 ==> (#[trigger] tree.rows@[i])@.len() == 8,
        forall|i: int, j: int|
            0 <= i < 8 && 0 <= j < 8 ==> cell_rendered(
                grid.rows@[i]@[j],
                (#[trigger] tree.rows@[i]@[j]),
            ),
{
    let mut rows: Vec<Vec<CellVisual>> = Vec::new();
    let mut i: usize = 0;
    while i < 8
        invariant
            grid_shape(*grid),
            grid_labels_wf(*grid),
            i <= 8,
            rows@.len() == i,
            forall|a: int| 0 <= a < i ==> (#[trigger] rows@[a])@.len() == 8,
            forall|a: int, b: int|
                0 <= a < i && 0 <= b < 8 ==> cell_rendered(
                    grid.rows@[a]@[b],
                    (#[trigger] rows@[a]@[b]),
                ),
        decreases 8 - i,
    {
        let mut row: Vec<CellVisual> = Vec::new();
        let mut j: usize = 0;
        while j < 8
            invariant
                grid_shape(*grid),
                grid_labels_wf(*grid),
                i < 8,
                j <= 8,
                row@.len() == j,
                forall|b: int|
                    0 <= b < j ==> cell_rendered(grid.rows@[i as int]@[b], (#[trigger] row@[b])),
            decreases 8 - j,
        {
            let cell_row: &Vec<CellSpec> = &grid.rows[i];
            row.push(render_cell(&cell_row[j]));
            j += 1;
        }
        rows.push(row);
        i += 1;
    }
    VisualTree { rows }
}

} // verus!
