//! Mapping a (column, generation) cell index to plane coordinates.
//!
//! The grid is anchored so that column 0 of generation 0 sits at
//! `(-offset, offset)` with `offset = canvas_width / 2 - cell_size`;
//! columns advance rightward and generations stack downward, both in
//! steps of exactly `cell_size`.

use vstd::prelude::*;

verus! {

/// The anchor offset of the grid for a given cell pitch and canvas width.
pub open spec fn offset_spec(cell_size: int, canvas_width: int) -> int {
    canvas_width / 2 - cell_size
}

/// The horizontal coordinate of column `column`.
pub open spec fn place_x(column: int, cell_size: int, canvas_width: int) -> int {
    -offset_spec(cell_size, canvas_width) + cell_size * column
}

/// The vertical coordinate of generation `generation`.
pub open spec fn place_y(generation: int, cell_size: int, canvas_width: int) -> int {
    offset_spec(cell_size, canvas_width) - cell_size * generation
}

/// The plane position of the cell at `column` within generation
/// `generation`, for a canvas of width `canvas_width` and a cell pitch
/// of `cell_size`.
pub fn place(column: u32, generation: u32, cell_size: i64, canvas_width: i64) -> (pos: (
    i64,
    i64,
))
    requires
        cell_size > 0,
        canvas_width > 0,
        cell_size * column <= i64::MAX,
        cell_size * generation <= i64::MAX,
        place_x(column as int, cell_size as int, canvas_width as int) <= i64::MAX,
        place_y(generation as int, cell_size as int, canvas_width as int) >= i64::MIN,
    ensures
        pos.0 == place_x(column as int, cell_size as int, canvas_width as int),
        pos.1 == place_y(generation as int, cell_size as int, canvas_width as int),
{
    let half: i64 = ((canvas_width as u64) / 2) as i64;
    let offset: i64 = half - cell_size;
    let x: i64 = -offset + cell_size * (column as i64);
    let y: i64 = offset - cell_size * (generation as i64);
    (x, y)
}

/// Distinct (column, generation) pairs never share a position: with a
/// positive cell pitch, equal coordinates force equal indices.
pub proof fn lemma_place_injective(
    c1: int,
    g1: int,
    c2: int,
    g2: int,
    cell_size: int,
    canvas_width: int,
)
    requires
        cell_size > 0,
        place_x(c1, cell_size, canvas_width) == place_x(c2, cell_size, canvas_width),
        place_y(g1, cell_size, canvas_width) == place_y(g2, cell_size, canvas_width),
    ensures
        c1 == c2,
        g1 == g2,
{
    assert(cell_size * c1 == cell_size * c2);
    assert(cell_size * g1 == cell_size * g2);
    assert(c1 == c2) by (nonlinear_arith)
        requires
            cell_size > 0,
            cell_size * c1 == cell_size * c2,
    ;
    assert(g1 == g2) by (nonlinear_arith)
        requires
            cell_size > 0,
            cell_size * g1 == cell_size * g2,
    ;
}

/// Consecutive columns sit exactly one cell pitch apart horizontally,
/// and consecutive generations exactly one cell pitch apart vertically:
/// the grid has no gaps and no overlaps.
pub proof fn lemma_place_pitch(column: int, generation: int, cell_size: int, canvas_width: int)
    ensures
        place_x(column + 1, cell_size, canvas_width) - place_x(column, cell_size, canvas_width)
            == cell_size,
        place_y(generation, cell_size, canvas_width) - place_y(
            generation + 1,
            cell_size,
            canvas_width,
        ) == cell_size,
{
    assert(cell_size * (column + 1) == cell_size * column + cell_size) by (nonlinear_arith);
    assert(cell_size * (generation + 1) == cell_size * generation + cell_size)
        by (nonlinear_arith);
}

} // verus!
