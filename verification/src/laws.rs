//! The properties the projection keeps, proved against `project`'s contract.

use vstd::prelude::*;
use crate::board::{Coordinate, Occupant, square_index};
use crate::icons::IconRef;
use crate::projection::{
    CellSpec, DisplayMode, Grid, Orientation, cell_ok, displayed_file, displayed_rank,
    icon_matches, project_post,
};

verus! {

/// Two optional icons that agree in presence, source locator and description.
pub open spec fn icons_equal(a: Option<IconRef>, b: Option<IconRef>) -> bool {
    match (a, b) {
        (Option::None, Option::None) => true,
        (Option::Some(x), Option::Some(y)) => {
            &&& x.url@ == y.url@
            &&& x.description@ == y.description@
        },
        _ => false,
    }
}

/// Two cells that agree in every observable field.
pub open spec fn cells_equal(a: CellSpec, b: CellSpec) -> bool {
    &&& a.coordinate == b.coordinate
    &&& a.background == b.background
    &&& icons_equal(a.piece_icon, b.piece_icon)
    &&& a.rank_label == b.rank_label
    &&& a.file_label == b.file_label
}

/// Two coordinates adjacent by exactly one file step or one rank step.
pub open spec fn adjacent(a: Coordinate, b: Coordinate) -> bool {
    ||| (a.file == b.file && (a.rank + 1 == b.rank || b.rank + 1 == a.rank))
    ||| (a.rank == b.rank && (a.file + 1 == b.file || b.file + 1 == a.file))
}

/// Every board coordinate appears in a projected grid, and no coordinate
/// appears in two different places: each of the 64 cells is one coordinate.
pub proof fn lemma_each_coordinate_once(
    pos: Seq<Occupant>,
    orientation: Orientation,
    mode: DisplayMode,
    grid: Grid,
)
    requires
        project_post(pos, orientation, mode, grid),
    ensures
        forall|c: Coordinate|
            #[trigger] c.wf() ==> exists|i: int, j: int|
                0 <= i < 8 && 0 <= j < 8 && (#[trigger] grid.rows@[i]@[j]).coordinate == c,
        forall|i1: int, j1: int, i2: int, j2: int|
            0 <= i1 < 8 && 0 <= j1 < 8 && 0 <= i2 < 8 && 0 <= j2 < 8
                && (#[trigger] grid.rows@[i1]@[j1]).coordinate
                    == (#[trigger] grid.rows@[i2]@[j2]).coordinate ==> i1 == i2 && j1 == j2,
{
    assert forall|c: Coordinate| #[trigger] c.wf() implies exists|i: int, j: int|
        0 <= i < 8 && 0 <= j < 8 && (#[trigger] grid.rows@[i]@[j]).coordinate == c by {
        let i = match orientation {
            Orientation::Normal => 7 - c.rank as int,
            Orientation::Flipped => c.rank as int,
        };
        let j = match orientation {
            Orientation::Normal => c.file as int,
            Orientation::Flipped => 7 - c.file as int,
        };
        assert(cell_ok(pos, orientation, mode, i, j, grid.rows@[i]@[j]));
        assert(0 <= i < 8 && 0 <= j < 8 && grid.rows@[i]@[j].coordinate == c);
    }
    assert forall|i1: int, j1: int, i2: int, j2: int|
        0 <= i1 < 8 && 0 <= j1 < 8 && 0 <= i2 < 8 && 0 <= j2 < 8
            && (#[trigger] grid.rows@[i1]@[j1]).coordinate
                == (#[trigger] grid.rows@[i2]@[j2]).coordinate implies i1 == i2 && j1 == j2 by {
        assert(cell_ok(pos, orientation, mode, i1, j1, grid.rows@[i1]@[j1]));
        assert(cell_ok(pos, orientation, mode, i2, j2, grid.rows@[i2]@[j2]));
    }
}

/// Coloring invariant: cells of two projections of the same position that
/// show the same coordinate have the same background color, whatever the
/// orientations and modes.
pub proof fn lemma_color_orientation_invariant(
    pos: Seq<Occupant>,
    o1: Orientation,
    m1: DisplayMode,
    g1: Grid,
    o2: Orientation,
    m2: DisplayMode,
    g2: Grid,
)
    requires
        project_post(pos, o1, m1, g1),
        project_post(pos, o2, m2, g2),
    ensures
        forall|i1: int, j1: int, i2: int, j2: int|
            0 <= i1 < 8 && 0 <= j1 < 8 && 0 <= i2 < 8 && 0 <= j2 < 8
                && (#[trigger] g1.rows@[i1]@[j1]).coordinate
                    == (#[trigger] g2.rows@[i2]@[j2]).coordinate
                ==> g1.rows@[i1]@[j1].background == g2.rows@[i2]@[j2].background,
{
    assert forall|i1: int, j1: int, i2: int, j2: int|
        0 <= i1 < 8 && 0 <= j1 < 8 && 0 <= i2 < 8 && 0 <= j2 < 8
            && (#[trigger] g1.rows@[i1]@[j1]).coordinate
                == (#[trigger] g2.rows@[i2]@[j2]).coordinate
            implies g1.rows@[i1]@[j1].background == g2.rows@[i2]@[j2].background by {
        assert(cell_ok(pos, o1, m1, i1, j1, g1.rows@[i1]@[j1]));
        assert(cell_ok(pos, o2, m2, i2, j2, g2.rows@[i2]@[j2]));
    }
}

/// Checkerboard property: two cells of a projected grid whose coordinates
/// are adjacent by one file or one rank step have different backgrounds.
pub proof fn lemma_checkerboard(
    pos: Seq<Occupant>,
    orientation: Orientation,
    mode: DisplayMode,
    grid: Grid,
)
    requires
        project_post(pos, orientation, mode, grid),
    ensures
        forall|i1: int, j1: int, i2: int, j2: int|
            0 <= i1 < 8 && 0 <= j1 < 8 && 0 <= i2 < 8 && 0 <= j2 < 8
                && adjacent(
                    (#[trigger] grid.rows@[i1]@[j1]).coordinate,
                    (#[trigger] grid.rows@[i2]@[j2]).coordinate,
                ) ==> grid.rows@[i1]@[j1].background != grid.rows@[i2]@[j2].background,
{
    assert forall|i1: int, j1: int, i2: int, j2: int|
        0 <= i1 < 8 && 0 <= j1 < 8 && 0 <= i2 < 8 && 0 <= j2 < 8
            && adjacent(
                (#[trigger] grid.rows@[i1]@[j1]).coordinate,
                (#[trigger] grid.rows@[i2]@[j2]).coordinate,
            ) implies grid.rows@[i1]@[j1].background != grid.rows@[i2]@[j2].background by {
        assert(cell_ok(pos, orientation, mode, i1, j1, grid.rows@[i1]@[j1]));
        assert(cell_ok(pos, orientation, mode, i2, j2, grid.rows@[i2]@[j2]));
        let s1 = grid.rows@[i1]@[j1].coordinate.file + grid.rows@[i1]@[j1].coordinate.rank;
        let s2 = grid.rows@[i2]@[j2].coordinate.file + grid.rows@[i2]@[j2].coordinate.rank;
        assert(s2 == s1 + 1 || s1 == s2 + 1);
        assert((s1 + 1) % 2 != s1 % 2);
        assert((s2 + 1) % 2 != s2 % 2);
    }
}

/// Orientation symmetry, in plain mode: the two orientations project grids
/// that are reverses of each other row-wise and column-wise. (In labeled
/// mode the label edges track the viewer, so the mirrored cells differ in
/// their labels and the property does not hold.)
pub proof fn lemma_orientation_symmetry(
    pos: Seq<Occupant>,
    mode: DisplayMode,
    g1: Grid,
    g2: Grid,
)
    requires
        mode is Plain,
        project_post(pos, Orientation::Normal, mode, g1),
        project_post(pos, Orientation::Flipped, mode, g2),
    ensures
        forall|i: int, j: int|
            0 <= i < 8 && 0 <= j < 8 ==> cells_equal(
                (#[trigger] g1.rows@[i]@[j]),
                g2.rows@[7 - i]@[7 - j],
            ),
{
    assert forall|i: int, j: int| 0 <= i < 8 && 0 <= j < 8 implies cells_equal(
        (#[trigger] g1.rows@[i]@[j]),
        g2.rows@[7 - i]@[7 - j],
    ) by {
        assert(cell_ok(pos, Orientation::Normal, mode, i, j, g1.rows@[i]@[j]));
        assert(cell_ok(pos, Orientation::Flipped, mode, 7 - i, 7 - j, g2.rows@[7 - i]@[7 - j]));
    }
}

/// Labeled mode places a rank label exactly on the displayed left column
/// (one cell in each of the 8 rows), a file label exactly on the displayed
/// bottom row (one cell in each of the 8 columns), and both labels exactly
/// on the single cell where that column and row cross.
pub proof fn lemma_labeled_label_placement(
    pos: Seq<Occupant>,
    orientation: Orientation,
    grid: Grid,
)
    requires
        project_post(pos, orientation, DisplayMode::Labeled, grid),
    ensures
        forall|i: int, j: int|
            0 <= i < 8 && 0 <= j < 8
                ==> ((#[trigger] grid.rows@[i]@[j]).rank_label is Some <==> j == 0),
        forall|i: int, j: int|
            0 <= i < 8 && 0 <= j < 8
                ==> ((#[trigger] grid.rows@[i]@[j]).file_label is Some <==> i == 7),
        forall|i: int, j: int|
            0 <= i < 8 && 0 <= j < 8
                ==> (((#[trigger] grid.rows@[i]@[j]).rank_label is Some
                    && grid.rows@[i]@[j].file_label is Some) <==> (i == 7 && j == 0)),
{
    assert forall|i: int, j: int| 0 <= i < 8 && 0 <= j < 8 implies
        ((#[trigger] grid.rows@[i]@[j]).rank_label is Some <==> j == 0)
        && ((grid.rows@[i]@[j]).file_label is Some <==> i == 7) by {
        assert(cell_ok(pos, orientation, DisplayMode::Labeled, i, j, grid.rows@[i]@[j]));
    }
}

/// Plain mode attaches no label to any cell of the grid.
pub proof fn lemma_plain_no_labels(
    pos: Seq<Occupant>,
    orientation: Orientation,
    grid: Grid,
)
    requires
        project_post(pos, orientation, DisplayMode::Plain, grid),
    ensures
        forall|i: int, j: int|
            0 <= i < 8 && 0 <= j < 8
                ==> (#[trigger] grid.rows@[i]@[j]).rank_label is None
                    && grid.rows@[i]@[j].file_label is None,
{
    assert forall|i: int, j: int| 0 <= i < 8 && 0 <= j < 8 implies
        (#[trigger] grid.rows@[i]@[j]).rank_label is None
            && grid.rows@[i]@[j].file_label is None by {
        assert(cell_ok(pos, orientation, DisplayMode::Plain, i, j, grid.rows@[i]@[j]));
    }
}

/// Piece resolution: the cell showing an occupied square carries exactly the
/// lookup-table icon for that square's piece, and the cell showing an empty
/// square carries none.
pub proof fn lemma_piece_resolution(
    pos: Seq<Occupant>,
    orientation: Orientation,
    mode: DisplayMode,
    grid: Grid,
)
    requires
        project_post(pos, orientation, mode, grid),
    ensures
        forall|i: int, j: int|
            0 <= i < 8 && 0 <= j < 8 ==> icon_matches(
                pos[square_index(displayed_file(orientation, j), displayed_rank(orientation, i))],
                (#[trigger] grid.rows@[i]@[j]).piece_icon,
            ),
{
    assert forall|i: int, j: int| 0 <= i < 8 && 0 <= j < 8 implies icon_matches(
        pos[square_index(displayed_file(orientation, j), displayed_rank(orientation, i))],
        (#[trigger] grid.rows@[i]@[j]).piece_icon,
    ) by {
        assert(cell_ok(pos, orientation, mode, i, j, grid.rows@[i]@[j]));
    }
}

/// Idempotence: two projections of the same position, orientation and mode
/// agree cell by cell in every observable field.
pub proof fn lemma_project_deterministic(
    pos: Seq<Occupant>,
    orientation: Orientation,
    mode: DisplayMode,
    g1: Grid,
    g2: Grid,
)
    requires
        project_post(pos, orientation, mode, g1),
        project_post(pos, orientation, mode, g2),
    ensures
        forall|i: int, j: int|
            0 <= i < 8 && 0 <= j < 8 ==> cells_equal(
                (#[trigger] g1.rows@[i]@[j]),
                (#[trigger] g2.rows@[i]@[j]),
            ),
{
    assert forall|i: int, j: int| 0 <= i < 8 && 0 <= j < 8 implies cells_equal(
        (#[trigger] g1.rows@[i]@[j]),
        (#[trigger] g2.rows@[i]@[j]),
    ) by {
        assert(cell_ok(pos, orientation, mode, i, j, g1.rows@[i]@[j]));
        assert(cell_ok(pos, orientation, mode, i, j, g2.rows@[i]@[j]));
    }
}

} // verus!
