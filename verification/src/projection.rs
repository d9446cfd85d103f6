//! The board-to-view projection: derives, for one orientation and display
//! mode, the full 8x8 grid of cell descriptions from a position.

use vstd::prelude::*;
use crate::board::{Coordinate, Occupant, Position, square_index};
use crate::icons::{IconRef, icon_for, spec_icon_description, spec_icon_url};

verus! {

/// Which side of the board the viewer has at the bottom.
#[derive(Clone, Copy, PartialEq, Eq, Structural, Debug)]
pub enum Orientation {
    /// White at the bottom.
    Normal,
    /// Black at the bottom.
    Flipped,
}

/// Whether coordinate labels are attached along the near edges.
#[derive(Clone, Copy, PartialEq, Eq, Structural, Debug)]
pub enum DisplayMode {
    Plain,
    Labeled,
}

/// The two theme colors of the checkerboard.
#[derive(Clone, Copy, PartialEq, Eq, Structural, Debug)]
pub enum ThemeColor {
    /// Theme color A, for squares of even file-plus-rank parity.
    Dark,
    /// Theme color B, for squares of odd file-plus-rank parity.
    Light,
}

/// The fully derived description of one square, ready for composition.
#[derive(Clone, PartialEq, Debug)]
pub struct CellSpec {
    pub coordinate: Coordinate,
    pub background: ThemeColor,
    pub piece_icon: Option<IconRef>,
    /// Rank number 1..=8, present only on the label-edge file in labeled mode.
    pub rank_label: Option<u8>,
    /// File letter 'a'..='h', present only on the label-edge rank in labeled mode.
    pub file_label: Option<char>,
}

/// An ordered 8x8 grid of cells: rows top-to-bottom, cells left-to-right,
/// under the orientation the grid was projected for.
#[derive(Clone, PartialEq, Debug)]
pub struct Grid {
    pub rows: Vec<Vec<CellSpec>>,
}

/// The file shown in display column `col` (0 = left).
pub open spec fn displayed_file(orientation: Orientation, col: int) -> int {
    match orientation {
        Orientation::Normal => col,
        Orientation::Flipped => 7 - col,
    }
}

/// The rank shown in display row `row` (0 = top): the far side of the board
/// comes first, so the viewer's own back rank ends up at the bottom.
pub open spec fn displayed_rank(orientation: Orientation, row: int) -> int {
    match orientation {
        Orientation::Normal => 7 - row,
        Orientation::Flipped => row,
    }
}

/// Checkerboard rule: the color of a square depends on the parity of its
/// absolute file and rank ordinals alone, never on the orientation.
pub open spec fn square_color(file: int, rank: int) -> ThemeColor {
    if (file + rank) % 2 == 0 {
        ThemeColor::Dark
    } else {
        ThemeColor::Light
    }
}

/// The other theme color; labels use it against the cell background.
pub open spec fn opposite_color(color: ThemeColor) -> ThemeColor {
    match color {
        ThemeColor::Dark => ThemeColor::Light,
        ThemeColor::Light => ThemeColor::Dark,
    }
}

/// The file whose column carries rank labels: the viewer's near-left edge.
pub open spec fn label_edge_file(orientation: Orientation) -> int {
    match orientation {
        Orientation::Normal => 0,
        Orientation::Flipped => 7,
    }
}

/// The rank whose row carries file labels: the viewer's near edge.
pub open spec fn label_edge_rank(orientation: Orientation) -> int {
    match orientation {
        Orientation::Normal => 0,
        Orientation::Flipped => 7,
    }
}

/// The rank label a cell carries: the rank number 1..=8, on the label-edge
/// file in labeled mode only.
pub open spec fn spec_rank_label(
    mode: DisplayMode,
    orientation: Orientation,
    file: int,
    rank: int,
) -> Option<u8> {
    if mode is Labeled && file == label_edge_file(orientation) {
        Some((rank + 1) as u8)
    } else {
        None
    }
}

/// The letter naming a file ordinal.
pub open spec fn file_letter(file: int) -> char {
    if file == 0 {
        'a'
    } else if file == 1 {
        'b'
    } else if file == 2 {
        'c'
    } else if file == 3 {
        'd'
    } else if file == 4 {
        'e'
    } else if file == 5 {
        'f'
    } else if file == 6 {
        'g'
    } else {
        'h'
    }
}

/// The file label a cell carries: the file letter, on the label-edge rank in
/// labeled mode only.
pub open spec fn spec_file_label(
    mode: DisplayMode,
    orientation: Orientation,
    file: int,
    rank: int,
) -> Option<char> {
    if mode is Labeled && rank == label_edge_rank(orientation) {
        Some(file_letter(file))
    } else {
        None
    }
}

/// The produced icon matches the occupant: absent for an empty square, and
/// the lookup-table entry for the occupying piece otherwise.
pub open spec fn icon_matches(occupant: Occupant, icon: Option<IconRef>) -> bool {
    match occupant {
        None => icon is None,
        Some(p) => {
            &&& icon matches Some(ic)
            &&& ic.url@ == spec_icon_url(p.kind, p.side)
            &&& ic.description@ == spec_icon_description()
        },
    }
}

/// Everything `project` promises of the single cell in display row `row`,
/// column `col`.
pub open spec fn cell_ok(
    pos: Seq<Occupant>,
    orientation: Orientation,
    mode: DisplayMode,
    row: int,
    col: int,
    cell: CellSpec,
) -> bool {
    let file = displayed_file(orientation, col);
    let rank = displayed_rank(orientation, row);
    &&& cell.coordinate.file == file
    &&& cell.coordinate.rank == rank
    &&& cell.background == square_color(file, rank)
    &&& icon_matches(pos[square_index(file, rank)], cell.piece_icon)
    &&& cell.rank_label == spec_rank_label(mode, orientation, file, rank)
    &&& cell.file_label == spec_file_label(mode, orientation, file, rank)
}

/// A grid has 8 rows of 8 cells.
pub open spec fn grid_shape(grid: Grid) -> bool {
    &&& grid.rows@.len() == 8
    &&& forall|i: int| 0 <= i < 8 ==> (#[trigger] grid.rows@[i])@.len() == 8
}

/// A grid whose rank labels, where present, are rank numbers 1..=8, as the
/// projection produces them.
pub open spec fn grid_labels_wf(grid: Grid) -> bool {
    forall|i: int, j: int|
        0 <= i < 8 && 0 <= j < 8 ==> ((#[trigger] grid.rows@[i]@[j]).rank_label matches Some(n)
            ==> 1 <= n <= 8)
}

/// The full contract of `project`: the grid is 8x8 and every cell is the
/// one derivation rule applied to its display position.
pub open spec fn project_post(
    pos: Seq<Occupant>,
    orientation: Orientation,
    mode: DisplayMode,
    grid: Grid,
) -> bool {
    &&& grid_shape(grid)
    &&& forall|i: int, j: int|
        0 <= i < 8 && 0 <= j < 8 ==> cell_ok(
            pos,
            orientation,
            mode,
            i,
            j,
            (#[trigger] grid.rows@[i]@[j]),
        )
}

/// The file shown in display column `col`.
pub fn displayed_file_at(orientation: Orientation, col: u8) -> (f: u8)
    requires
        col < 8,
    ensures
        f == displayed_file(orientation, col as int),
        f < 8,
{
    match orientation {
        Orientation::Normal => col,
        Orientation::Flipped => 7 - col,
    }
}

/// The rank shown in display row `row`.
pub fn displayed_rank_at(orientation: Orientation, row: u8) -> (r: u8)
    requires
        row < 8,
    ensures
        r == displayed_rank(orientation, row as int),
        r < 8,
{
    match orientation {
        Orientation::Normal => 7 - row,
        Orientation::Flipped => row,
    }
}

/// The background color of the square at (file, rank).
pub fn square_color_at(file: u8, rank: u8) -> (c: ThemeColor)
    requires
        file < 8,
        rank < 8,
    ensures
        c == square_color(file as int, rank as int),
{
    if (file + rank) % 2 == 0 {
        ThemeColor::Dark
    } else {
        ThemeColor::Light
    }
}

/// The other theme color.
pub fn opposite_color_at(color: ThemeColor) -> (c: ThemeColor)
    ensures
        c == opposite_color(color),
{
    match color {
        ThemeColor::Dark => ThemeColor::Light,
        ThemeColor::Light => ThemeColor::Dark,
    }
}

/// The letter naming a file ordinal.
pub fn file_letter_at(file: u8) -> (c: char)
    requires
        file < 8,
    ensures
        c == file_letter(file as int),
{
    match file {
        0 => 'a',
        1 => 'b',
        2 => 'c',
        3 => 'd',
        4 => 'e',
        5 => 'f',
        6 => 'g',
        _ => 'h',
    }
}

/// The file whose column carries rank labels under this orientation.
fn label_edge_file_at(orientation: Orientation) -> (f: u8)
    ensures
        f == label_edge_file(orientation),
{
    match orientation {
        Orientation::Normal => 0,
        Orientation::Flipped => 7,
    }
}

/// The rank whose row carries file labels under this orientation.
fn label_edge_rank_at(orientation: Orientation) -> (r: u8)
    ensures
        r == label_edge_rank(orientation),
{
    match orientation {
        Orientation::Normal => 0,
        Orientation::Flipped => 7,
    }
}

/// Derive the one cell at absolute coordinate (file, rank).
fn make_cell(
    position: &Position,
    orientation: Orientation,
    mode: DisplayMode,
    file: u8,
    rank: u8,
) -> (cell: CellSpec)
    requires
        position.wf(),
        file < 8,
        rank < 8,
    ensures
        cell.coordinate.file == file,
        cell.coordinate.rank == rank,
        cell.background == square_color(file as int, rank as int),
        icon_matches(position@[square_index(file as int, rank as int)], cell.piece_icon),
        cell.rank_label == spec_rank_label(mode, orientation, file as int, rank as int),
        cell.file_label == spec_file_label(mode, orientation, file as int, rank as int),
{
    let piece_icon: Option<IconRef> = match position.occupant_at(file, rank) {
        Some(p) => Some(icon_for(p)),
        None => None,
    };
    let rank_label: Option<u8> = match mode {
        DisplayMode::Plain => None,
        DisplayMode::Labeled => if file == label_edge_file_at(orientation) {
            Some(rank + 1)
        } else {
            None
        },
    };
    let file_label: Option<char> = match mode {
        DisplayMode::Plain => None,
        DisplayMode::Labeled => if rank == label_edge_rank_at(orientation) {
            Some(file_letter_at(file))
        } else {
            None
        },
    };
    CellSpec {
        coordinate: Coordinate { file, rank },
        background: square_color_at(file, rank),
        piece_icon,
        rank_label,
        file_label,
    }
}

/// Project a position onto the 8x8 display grid for one orientation and
/// display mode. Pure: the grid is a function of the three inputs alone.
pub fn project(position: &Position, orientation: Orientation, mode: DisplayMode) -> (grid: Grid)
    requires
        position.wf(),
    ensures
        project_post(position@, orientation, mode, grid),
        grid_labels_wf(grid),
{
    let mut rows: Vec<Vec<CellSpec>> = Vec::new();
    let mut i: usize = 0;
    while i < 8
        invariant
            position.wf(),
            i <= 8,
            rows@.len() == i,
            forall|a: int| 0 <= a < i ==> (#[trigger] rows@[a])@.len() == 8,
            forall|a: int, b: int|
                0 <= a < i && 0 <= b < 8 ==> cell_ok(
                    position@,
                    orientation,
                    mode,
                    a,
                    b,
                    (#[trigger] rows@[a]@[b]),
                ),
        decreases 8 - i,
    {
        let mut row: Vec<CellSpec> = Vec::new();
        let mut j: usize = 0;
        while j < 8
            invariant
                position.wf(),
                i < 8,
                j <= 8,
                row@.len() == j,
                forall|b: int|
                    0 <= b < j ==> cell_ok(
                        position@,
                        orientation,
                        mode,
                        i as int,
                        b,
                        (#[trigger] row@[b]),
                    ),
            decreases 8 - j,
        {
            let file = displayed_file_at(orientation, j as u8);
            let rank = displayed_rank_at(orientation, i as u8);
            let cell = make_cell(position, orientation, mode, file, rank);
            row.push(cell);
            j += 1;
        }
        rows.push(row);
        i += 1;
    }
    Grid { rows }
}

} // verus!
