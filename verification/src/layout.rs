//! Board layout state, the resize reactor, and the layout synchronizers.
//!
//! The host delivers resize signals and runs one step of each function here
//! per frame tick. Within a tick only the most recent signal or notification
//! of a kind is honoured; older ones in the same batch are discarded.

use vstd::prelude::*;

use crate::geometry::CellAddress;
use crate::geometry::Orientation;
use crate::geometry::Rect;
use crate::geometry::cell_rect;
use crate::geometry::separator_rect;
use crate::geometry::spec_cell_rect;
use crate::geometry::spec_separator_rect;
use crate::geometry::within_dimension_bounds;

verus! {

/// A host resize signal or window measurement: a width and a height in
/// pixels.
#[derive(Clone, Copy, PartialEq, Eq, Structural, Debug)]
pub struct ResizeSignal {
    pub width: i64,
    pub height: i64,
}

/// Notification that the board dimension changed, carrying the new value in
/// pixels.
#[derive(Clone, Copy, PartialEq, Eq, Structural, Debug)]
pub struct DimensionChanged {
    pub dimension: i64,
}

/// The current board dimension in pixels: the side length of the square
/// board. Written only by the resize reactor; any value is accepted
/// unchecked, so a degenerate (zero or negative) dimension propagates into
/// degenerate geometry downstream.
#[derive(Clone, Copy, PartialEq, Eq, Structural, Debug)]
pub struct BoardLayout {
    pub dimension: i64,
}

/// The main board presentation element: the square node whose width and
/// height the resize reactor sets.
#[derive(Clone, Copy, PartialEq, Eq, Structural, Debug)]
pub struct BoardElement {
    pub width: i64,
    pub height: i64,
}

/// A separator presentation element, tagged with its index in {1, 2}.
#[derive(Clone, Copy, PartialEq, Eq, Structural, Debug)]
pub struct SeparatorElement {
    pub index: u8,
    pub rect: Rect,
}

/// A cell presentation element, tagged with its grid address.
#[derive(Clone, Copy, PartialEq, Eq, Structural, Debug)]
pub struct CellElement {
    pub address: CellAddress,
    pub rect: Rect,
}

/// The smaller of two side lengths.
pub open spec fn smaller_side(w: int, h: int) -> int {
    if w <= h {
        w
    } else {
        h
    }
}

impl BoardLayout {
    /// A fresh layout starts with dimension 0, before the window has been
    /// measured.
    pub fn new() -> (layout: BoardLayout)
        ensures
            layout.dimension == 0,
    {
        BoardLayout { dimension: 0 }
    }

    /// Unconditional overwrite of the dimension; no validation is performed.
    pub fn set_dimension(&mut self, value: i64)
        ensures
            final(self).dimension == value,
    {
        self.dimension = value;
    }
}

/// The board is square and fits the smaller window side.
pub fn min_side(width: i64, height: i64) -> (m: i64)
    ensures
        m == smaller_side(width as int, height as int),
{
    if width <= height {
        width
    } else {
        height
    }
}

/// The most recent resize signal of a tick's batch; older signals are
/// discarded.
pub fn latest_resize(signals: &Vec<ResizeSignal>) -> (r: Option<ResizeSignal>)
    ensures
        signals@.len() == 0 ==> r is None,
        signals@.len() > 0 ==> r == Some(signals@.last()),
{
    if signals.len() == 0 {
        None
    } else {
        Some(signals[signals.len() - 1])
    }
}

/// The most recent dimension-changed notification of a tick's batch; older
/// notifications are discarded.
pub fn latest_dimension_change(events: &Vec<DimensionChanged>) -> (r: Option<DimensionChanged>)
    ensures
        events@.len() == 0 ==> r is None,
        events@.len() > 0 ==> r == Some(events@.last()),
{
    if events.len() == 0 {
        None
    } else {
        Some(events[events.len() - 1])
    }
}

/// One step of the resize reactor. If the tick brought a resize signal and
/// the main board element exists (the first entry of `boards`), the board is
/// made square at the smaller side of the newest signal, the layout
/// dimension is overwritten, and one dimension-changed notification is
/// returned; otherwise nothing changes and no notification is produced.
pub fn resize_step(
    layout: &mut BoardLayout,
    boards: &mut Vec<BoardElement>,
    signals: &Vec<ResizeSignal>,
) -> (notification: Option<DimensionChanged>)
    ensures
        signals@.len() == 0 || old(boards)@.len() == 0 ==> {
            &&& *final(layout) == *old(layout)
            &&& final(boards)@ == old(boards)@
            &&& notification is None
        },
        signals@.len() > 0 && old(boards)@.len() > 0 ==> {
            let dim = smaller_side(
                signals@.last().width as int,
                signals@.last().height as int,
            );
            &&& final(layout).dimension == dim
            &&& final(boards)@ == old(boards)@.update(
                0,
                BoardElement { width: dim as i64, height: dim as i64 },
            )
            &&& notification == Some(DimensionChanged { dimension: dim as i64 })
        },
{
    match latest_resize(signals) {
        None => None,
        Some(signal) => {
            if boards.len() == 0 {
                None
            } else {
                let dim = min_side(signal.width, signal.height);
                boards.set(0, BoardElement { width: dim, height: dim });
                layout.set_dimension(dim);
                Some(DimensionChanged { dimension: dim })
            }
        },
    }
}

/// The startup measurement: reads the host window's size, if the window
/// exists, and establishes the initial dimension directly, with no
/// notification.
pub fn startup_dimension(layout: &mut BoardLayout, window: Option<ResizeSignal>)
    ensures
        window is None ==> *final(layout) == *old(layout),
        window matches Some(size) ==> final(layout).dimension == smaller_side(
            size.width as int,
            size.height as int,
        ),
{
    match window {
        None => (),
        Some(size) => {
            let dim = min_side(size.width, size.height);
            layout.set_dimension(dim);
        },
    }
}

/// The main board element as first laid out: square at the current
/// dimension.
pub fn initial_board_element(dimension: i64) -> (board: BoardElement)
    ensures
        board == (BoardElement { width: dimension, height: dimension }),
{
    BoardElement { width: dimension, height: dimension }
}

/// The nine cell elements as first laid out: addresses in column-major
/// order, each with its rectangle for the current dimension.
pub fn initial_cell_elements(dimension: i64) -> (cells: Vec<CellElement>)
    requires
        within_dimension_bounds(dimension as int),
    ensures
        cells@.len() == 9,
        forall|k: int|
            0 <= k < 9 ==> {
                &&& (#[trigger] cells@[k]).address == (CellAddress {
                    col: (k / 3) as u8,
                    row: (k % 3) as u8,
                })
                &&& cells@[k].rect@ == spec_cell_rect(dimension as int, k / 3, k % 3)
            },
{
    let mut cells: Vec<CellElement> = Vec::new();
    let mut k: usize = 0;
    while k < 9
        invariant
            k <= 9,
            cells@.len() == k,
            within_dimension_bounds(dimension as int),
            forall|m: int|
                0 <= m < k ==> {
                    &&& (#[trigger] cells@[m]).address == (CellAddress {
                        col: (m / 3) as u8,
                        row: (m % 3) as u8,
                    })
                    &&& cells@[m].rect@ == spec_cell_rect(dimension as int, m / 3, m % 3)
                },
        decreases 9 - k,
    {
        let col: u8 = (k / 3) as u8;
        let row: u8 = (k % 3) as u8;
        let rect = cell_rect(dimension, col, row);
        cells.push(CellElement { address: CellAddress { col, row }, rect });
        k = k + 1;
    }
    cells
}

/// The two separator elements of one orientation as first laid out: indices
/// 1 and 2, in that order, each with its rectangle for the current
/// dimension.
pub fn initial_separator_elements(dimension: i64, orientation: Orientation) -> (separators: Vec<
    SeparatorElement,
>)
    requires
        within_dimension_bounds(dimension as int),
    ensures
        separators@.len() == 2,
        forall|k: int|
            0 <= k < 2 ==> {
                &&& (#[trigger] separators@[k]).index == k + 1
                &&& separators@[k].rect@ == spec_separator_rect(
                    dimension as int,
                    k + 1,
                    orientation,
                )
            },
{
    let mut separators: Vec<SeparatorElement> = Vec::new();
    let first = separator_rect(dimension, 1, orientation);
    separators.push(SeparatorElement { index: 1, rect: first });
    let second = separator_rect(dimension, 2, orientation);
    separators.push(SeparatorElement { index: 2, rect: second });
    separators
}

/// One step of the separator-layout subscriber for one orientation. If the
/// tick brought a dimension-changed notification, every separator element's
/// rectangle is recomputed from the newest notification and its own index,
/// leaving nothing stale; with no notification the elements are untouched.
pub fn sync_separators(
    events: &Vec<DimensionChanged>,
    separators: &mut Vec<SeparatorElement>,
    orientation: Orientation,
)
    requires
        forall|i: int|
            0 <= i < events@.len() ==> within_dimension_bounds(events@[i].dimension as int),
        forall|i: int|
            0 <= i < old(separators)@.len() ==> 1 <= #[trigger] old(separators)@[i].index <= 2,
    ensures
        events@.len() == 0 ==> final(separators)@ == old(separators)@,
        events@.len() > 0 ==> {
            let dim = events@.last().dimension as int;
            &&& final(separators)@.len() == old(separators)@.len()
            &&& forall|i: int|
                0 <= i < old(separators)@.len() ==> {
                    &&& (#[trigger] final(separators)@[i]).index == old(separators)@[i].index
                    &&& final(separators)@[i].rect@ == spec_separator_rect(
                        dim,
                        old(separators)@[i].index as int,
                        orientation,
                    )
                }
        },
{
    match latest_dimension_change(events) {
        None => (),
        Some(event) => {
            let mut i: usize = 0;
            while i < separators.len()
                invariant
                    i <= separators@.len(),
                    separators@.len() == old(separators)@.len(),
                    within_dimension_bounds(event.dimension as int),
                    forall|j: int|
                        0 <= j < old(separators)@.len() ==> 1 <= #[trigger] old(
                            separators,
                        )@[j].index <= 2,
                    forall|j: int|
                        i <= j < old(separators)@.len() ==> #[trigger] separators@[j] == old(
                            separators,
                        )@[j],
                    forall|j: int|
                        0 <= j < i ==> {
                            &&& (#[trigger] separators@[j]).index == old(separators)@[j].index
                            &&& separators@[j].rect@ == spec_separator_rect(
                                event.dimension as int,
                                old(separators)@[j].index as int,
                                orientation,
                            )
                        },
                decreases separators@.len() - i,
            {
                let index = separators[i].index;
                let rect = separator_rect(event.dimension, index, orientation);
                separators.set(i, SeparatorElement { index, rect });
                i = i + 1;
            }
        },
    }
}

/// One step of the cell-layout subscriber. If the tick brought a
/// dimension-changed notification, every cell element's rectangle is
/// recomputed from the newest notification and its own address, leaving
/// nothing stale; with no notification the elements are untouched.
pub fn sync_cells(events: &Vec<DimensionChanged>, cells: &mut Vec<CellElement>)
    requires
        forall|i: int|
            0 <= i < events@.len() ==> within_dimension_bounds(events@[i].dimension as int),
        forall|i: int| 0 <= i < old(cells)@.len() ==> (#[trigger] old(cells)@[i]).address.is_valid(),
    ensures
        events@.len() == 0 ==> final(cells)@ == old(cells)@,
        events@.len() > 0 ==> {
            let dim = events@.last().dimension as int;
            &&& final(cells)@.len() == old(cells)@.len()
            &&& forall|i: int|
                0 <= i < old(cells)@.len() ==> {
                    &&& (#[trigger] final(cells)@[i]).address == old(cells)@[i].address
                    &&& final(cells)@[i].rect@ == spec_cell_rect(
                        dim,
                        old(cells)@[i].address.col as int,
                        old(cells)@[i].address.row as int,
                    )
                }
        },
{
    match latest_dimension_change(events) {
        None => (),
        Some(event) => {
            let mut i: usize = 0;
            while i < cells.len()
                invariant
                    i <= cells@.len(),
                    cells@.len() == old(cells)@.len(),
                    within_dimension_bounds(event.dimension as int),
                    forall|j: int|
                        0 <= j < old(cells)@.len() ==> (#[trigger] old(
                            cells,
                        )@[j]).address.is_valid(),
                    forall|j: int|
                        i <= j < old(cells)@.len() ==> #[trigger] cells@[j] == old(cells)@[j],
                    forall|j: int|
                        0 <= j < i ==> {
                            &&& (#[trigger] cells@[j]).address == old(cells)@[j].address
                            &&& cells@[j].rect@ == spec_cell_rect(
                                event.dimension as int,
                                old(cells)@[j].address.col as int,
                                old(cells)@[j].address.row as int,
                            )
                        },
                decreases cells@.len() - i,
            {
                let address = cells[i].address;
                let rect = cell_rect(event.dimension, address.col, address.row);
                cells.set(i, CellElement { address, rect });
                i = i + 1;
            }
        },
    }
}

} // verus!
