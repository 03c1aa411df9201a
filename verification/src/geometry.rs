//! Pure geometry for the 3x3 board: cell and separator rectangles.
//!
//! All lengths are in units of 1/300 pixel (`SCALE` units per pixel), so that
//! a third of the board (`dimension / 3`) and the separator line width
//! (2% of `dimension`) are exact integers: for a dimension of `d` pixels, a
//! third is `100 * d` units, the line width is `6 * d` units and half a line
//! is `3 * d` units.

use vstd::prelude::*;

verus! {

/// Geometry units per pixel: every coordinate this module produces is an
/// integer number of 1/300ths of a pixel.
pub const SCALE: i64 = 300;

/// Largest board dimension (in pixels, by absolute value) the geometry
/// accepts; keeps every derived coordinate within `i64`.
pub const MAX_DIMENSION: i64 = 30_000_000_000_000;

/// A rectangle applied to a presentation element. Fields are in units of
/// 1/300 pixel.
#[derive(Clone, Copy, PartialEq, Eq, Structural, Debug)]
pub struct Rect {
    pub width: i64,
    pub height: i64,
    pub left: i64,
    pub top: i64,
}

/// Mathematical model of a rectangle, free of machine-integer bounds.
pub struct RectModel {
    pub width: int,
    pub height: int,
    pub left: int,
    pub top: int,
}

impl View for Rect {
    type V = RectModel;

    open spec fn view(&self) -> RectModel {
        RectModel {
            width: self.width as int,
            height: self.height as int,
            left: self.left as int,
            top: self.top as int,
        }
    }
}

/// Address of one of the nine cells: column and row, each in {0, 1, 2}.
#[derive(Clone, Copy, PartialEq, Eq, Structural, Debug)]
pub struct CellAddress {
    pub col: u8,
    pub row: u8,
}

impl CellAddress {
    /// Both coordinates lie on the 3x3 grid.
    pub open spec fn is_valid(self) -> bool {
        self.col < 3 && self.row < 3
    }
}

/// Orientation of a separator line.
#[derive(Clone, Copy, PartialEq, Eq, Structural, Debug)]
pub enum Orientation {
    Vertical,
    Horizontal,
}

/// Whether a dimension (in pixels) is small enough for exact geometry in
/// `i64` units.
pub open spec fn within_dimension_bounds(d: int) -> bool {
    -MAX_DIMENSION <= d <= MAX_DIMENSION
}

/// Distance in units from the board edge to the near edge of the cell at
/// index `i` of one axis, on a board of `d` pixels. Each index starts a
/// third (`100 * d`) further in, plus an inset in half-lines (`3 * d` each):
/// no inset at index 0, one half-line at index 1, three at index 2.
pub open spec fn cell_start(d: int, i: int) -> int {
    if i == 0 {
        0
    } else if i == 1 {
        103 * d
    } else {
        209 * d
    }
}

/// Extent in units of the cell at index `i` of one axis, on a board of `d`
/// pixels: a third of the board (`100 * d`), less half a line for index 0,
/// nothing for index 1, and a full line for index 2.
pub open spec fn cell_span(d: int, i: int) -> int {
    if i == 0 {
        97 * d
    } else if i == 1 {
        100 * d
    } else {
        94 * d
    }
}

/// Distance in units from the board edge to the near edge of the separator
/// at `index`, on a board of `d` pixels: a third of the board per index,
/// shifted back half a line for index 1 and forward half a line for index 2.
pub open spec fn separator_start(d: int, i: int) -> int {
    if i == 1 {
        97 * d
    } else {
        203 * d
    }
}

/// The rectangle of the cell at column `col`, row `row` on a board of
/// `d` pixels: width and left depend only on the column, height and top only
/// on the row.
pub open spec fn spec_cell_rect(d: int, col: int, row: int) -> RectModel {
    RectModel {
        width: cell_span(d, col),
        height: cell_span(d, row),
        left: cell_start(d, col),
        top: cell_start(d, row),
    }
}

/// The rectangle of the separator at `index` with the given orientation on a
/// board of `d` pixels: a vertical separator is one line wide and spans the
/// full height; a horizontal one is one line tall and spans the full width.
pub open spec fn spec_separator_rect(d: int, index: int, orientation: Orientation) -> RectModel {
    match orientation {
        Orientation::Vertical => RectModel {
            width: 6 * d,
            height: SCALE * d,
            left: separator_start(d, index),
            top: 0,
        },
        Orientation::Horizontal => RectModel {
            width: SCALE * d,
            height: 6 * d,
            left: 0,
            top: separator_start(d, index),
        },
    }
}

/// Rectangle of one cell of the grid, in 1/300-pixel units, exact for any
/// dimension within bounds.
pub fn cell_rect(dimension: i64, col: u8, row: u8) -> (r: Rect)
    requires
        col < 3,
        row < 3,
        within_dimension_bounds(dimension as int),
    ensures
        r@ == spec_cell_rect(dimension as int, col as int, row as int),
{
    let third: i64 = 100 * dimension;
    let line: i64 = 6 * dimension;
    let half: i64 = 3 * dimension;
    let left: i64 = if col == 0 {
        0
    } else if col == 1 {
        third + half
    } else {
        2 * third + 3 * half
    };
    let top: i64 = if row == 0 {
        0
    } else if row == 1 {
        third + half
    } else {
        2 * third + 3 * half
    };
    let width: i64 = third - (if col == 0 {
        half
    } else if col == 1 {
        0
    } else {
        line
    });
    let height: i64 = third - (if row == 0 {
        half
    } else if row == 1 {
        0
    } else {
        line
    });
    Rect { width, height, left, top }
}

/// Thickness of a separator line in 1/300-pixel units: 2% of the dimension.
pub fn separator_thickness(dimension: i64) -> (t: i64)
    requires
        within_dimension_bounds(dimension as int),
    ensures
        t == 6 * dimension,
{
    6 * dimension
}

/// Rectangle of one separator line, in 1/300-pixel units, exact for any
/// dimension within bounds.
pub fn separator_rect(dimension: i64, index: u8, orientation: Orientation) -> (r: Rect)
    requires
        1 <= index <= 2,
        within_dimension_bounds(dimension as int),
    ensures
        r@ == spec_separator_rect(dimension as int, index as int, orientation),
{
    let third: i64 = 100 * dimension;
    let half: i64 = 3 * dimension;
    let start: i64 = if index == 1 {
        third - half
    } else {
        2 * third + half
    };
    let thickness = separator_thickness(dimension);
    match orientation {
        Orientation::Vertical => Rect {
            width: thickness,
            height: SCALE * dimension,
            left: start,
            top: 0,
        },
        Orientation::Horizontal => Rect {
            width: SCALE * dimension,
            height: thickness,
            left: 0,
            top: start,
        },
    }
}

/// Along either axis the five spans abut without gap or overlap: the first
/// cell starts at the board edge, the first separator starts where the first
/// cell ends, the middle cell where that separator ends, and so on through
/// the last cell. `cell_start` and `cell_span` give both the lefts and
/// widths (by column) and the tops and heights (by row), and `6 * d` is the
/// separator thickness, so this covers both axes.
pub proof fn lemma_cells_and_separators_abut(d: int)
    ensures
        cell_start(d, 0) == 0,
        separator_start(d, 1) == cell_start(d, 0) + cell_span(d, 0),
        cell_start(d, 1) == separator_start(d, 1) + 6 * d,
        separator_start(d, 2) == cell_start(d, 1) + cell_span(d, 1),
        cell_start(d, 2) == separator_start(d, 2) + 6 * d,
{
}

/// The three cell spans plus the two separator lines total `303 * d` units
/// against a board of `300 * d`: the grid overruns the square by one percent
/// of the dimension, entirely in the last cell, whose far edge lies `3 * d`
/// units past the board edge. The spans therefore sum to the dimension
/// exactly only when `d == 0`.
pub proof fn lemma_total_span(d: int)
    ensures
        cell_span(d, 0) + 6 * d + cell_span(d, 1) + 6 * d + cell_span(d, 2) == SCALE * d + 3 * d,
        cell_start(d, 2) + cell_span(d, 2) == SCALE * d + 3 * d,
{
}

/// A cell rectangle's width and left depend only on the column, and its
/// height and top only on the row.
pub proof fn lemma_cell_rect_symmetry(d: int, c: int, r1: int, r2: int)
    ensures
        spec_cell_rect(d, c, r1).width == spec_cell_rect(d, c, r2).width,
        spec_cell_rect(d, c, r1).left == spec_cell_rect(d, c, r2).left,
        spec_cell_rect(d, r1, c).height == spec_cell_rect(d, r2, c).height,
        spec_cell_rect(d, r1, c).top == spec_cell_rect(d, r2, c).top,
{
}

/// The geometry is a pure function of its inputs: any two rectangles that
/// meet `cell_rect`'s contract for the same dimension and address are equal.
pub proof fn lemma_cell_rect_deterministic(a: Rect, b: Rect, d: int, col: int, row: int)
    requires
        a@ == spec_cell_rect(d, col, row),
        b@ == spec_cell_rect(d, col, row),
    ensures
        a == b,
{
}

/// The geometry is a pure function of its inputs: any two rectangles that
/// meet `separator_rect`'s contract for the same dimension, index and
/// orientation are equal.
pub proof fn lemma_separator_rect_deterministic(
    a: Rect,
    b: Rect,
    d: int,
    index: int,
    orientation: Orientation,
)
    requires
        a@ == spec_separator_rect(d, index, orientation),
        b@ == spec_separator_rect(d, index, orientation),
    ensures
        a == b,
{
}

} // verus!
