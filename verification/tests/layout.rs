use tictactoe_board::geometry::{cell_rect, separator_rect, CellAddress, Orientation};
use tictactoe_board::layout::{
    initial_board_element, initial_cell_elements, initial_separator_elements,
    latest_dimension_change, latest_resize, min_side, resize_step, startup_dimension, sync_cells,
    sync_separators, BoardElement, BoardLayout, DimensionChanged, ResizeSignal,
};

#[test]
fn set_dimension_overwrites_unconditionally() {
    let mut layout = BoardLayout::new();
    assert_eq!(layout.dimension, 0);
    layout.set_dimension(640);
    assert_eq!(layout.dimension, 640);
    layout.set_dimension(-5);
    assert_eq!(layout.dimension, -5);
}

#[test]
fn min_side_picks_the_smaller() {
    assert_eq!(min_side(400, 500), 400);
    assert_eq!(min_side(500, 400), 400);
    assert_eq!(min_side(300, 300), 300);
}

#[test]
fn only_the_latest_signal_of_a_batch_counts() {
    assert_eq!(latest_resize(&vec![]), None);
    let batch = vec![
        ResizeSignal {
            width: 100,
            height: 100,
        },
        ResizeSignal {
            width: 800,
            height: 700,
        },
    ];
    assert_eq!(
        latest_resize(&batch),
        Some(ResizeSignal {
            width: 800,
            height: 700
        })
    );
    assert_eq!(latest_dimension_change(&vec![]), None);
    let events = vec![
        DimensionChanged { dimension: 10 },
        DimensionChanged { dimension: 20 },
    ];
    assert_eq!(
        latest_dimension_change(&events),
        Some(DimensionChanged { dimension: 20 })
    );
}

#[test]
fn resize_scenario_400_by_500() {
    // A (400, 500) resize signal: the board becomes 400 x 400, the layout
    // dimension 400, and one notification carrying 400 is produced.
    let mut layout = BoardLayout::new();
    let mut boards = vec![BoardElement {
        width: 0,
        height: 0,
    }];
    let signals = vec![ResizeSignal {
        width: 400,
        height: 500,
    }];
    let notification = resize_step(&mut layout, &mut boards, &signals);
    assert_eq!(notification, Some(DimensionChanged { dimension: 400 }));
    assert_eq!(layout.dimension, 400);
    assert_eq!(
        boards[0],
        BoardElement {
            width: 400,
            height: 400
        }
    );

    // All nine cells and all four separators then recompute against 400.
    let events = vec![notification.unwrap()];
    let mut cells = initial_cell_elements(300);
    sync_cells(&events, &mut cells);
    for cell in &cells {
        assert_eq!(
            cell.rect,
            cell_rect(400, cell.address.col, cell.address.row)
        );
    }
    let mut vertical = initial_separator_elements(300, Orientation::Vertical);
    let mut horizontal = initial_separator_elements(300, Orientation::Horizontal);
    sync_separators(&events, &mut vertical, Orientation::Vertical);
    sync_separators(&events, &mut horizontal, Orientation::Horizontal);
    for sep in &vertical {
        assert_eq!(sep.rect, separator_rect(400, sep.index, Orientation::Vertical));
    }
    for sep in &horizontal {
        assert_eq!(
            sep.rect,
            separator_rect(400, sep.index, Orientation::Horizontal)
        );
    }
}

#[test]
fn resize_without_board_is_a_no_op() {
    let mut layout = BoardLayout::new();
    layout.set_dimension(123);
    let mut boards: Vec<BoardElement> = vec![];
    let signals = vec![ResizeSignal {
        width: 400,
        height: 500,
    }];
    let notification = resize_step(&mut layout, &mut boards, &signals);
    assert_eq!(notification, None);
    assert_eq!(layout.dimension, 123);
}

#[test]
fn resize_without_signal_is_a_no_op() {
    let mut layout = BoardLayout::new();
    layout.set_dimension(123);
    let mut boards = vec![BoardElement {
        width: 9,
        height: 9,
    }];
    let notification = resize_step(&mut layout, &mut boards, &vec![]);
    assert_eq!(notification, None);
    assert_eq!(layout.dimension, 123);
    assert_eq!(
        boards[0],
        BoardElement {
            width: 9,
            height: 9
        }
    );
}

#[test]
fn startup_reads_the_window_once() {
    let mut layout = BoardLayout::new();
    startup_dimension(
        &mut layout,
        Some(ResizeSignal {
            width: 800,
            height: 600,
        }),
    );
    assert_eq!(layout.dimension, 600);
    startup_dimension(&mut layout, None);
    assert_eq!(layout.dimension, 600);
}

#[test]
fn initial_board_is_square() {
    assert_eq!(
        initial_board_element(512),
        BoardElement {
            width: 512,
            height: 512
        }
    );
}

#[test]
fn initial_cells_cover_the_grid() {
    let cells = initial_cell_elements(300);
    assert_eq!(cells.len(), 9);
    for (k, cell) in cells.iter().enumerate() {
        let col = (k / 3) as u8;
        let row = (k % 3) as u8;
        assert_eq!(cell.address, CellAddress { col, row });
        assert_eq!(cell.rect, cell_rect(300, col, row));
    }
}

#[test]
fn initial_separators_are_indexed_one_and_two() {
    let vertical = initial_separator_elements(300, Orientation::Vertical);
    assert_eq!(vertical.len(), 2);
    assert_eq!(vertical[0].index, 1);
    assert_eq!(vertical[1].index, 2);
    assert_eq!(
        vertical[0].rect,
        separator_rect(300, 1, Orientation::Vertical)
    );
    assert_eq!(
        vertical[1].rect,
        separator_rect(300, 2, Orientation::Vertical)
    );
}

#[test]
fn sync_without_notification_leaves_elements_untouched() {
    let mut cells = initial_cell_elements(300);
    let before = cells.clone();
    sync_cells(&vec![], &mut cells);
    assert_eq!(cells, before);

    let mut seps = initial_separator_elements(300, Orientation::Vertical);
    let before = seps.clone();
    sync_separators(&vec![], &mut seps, Orientation::Vertical);
    assert_eq!(seps, before);
}

#[test]
fn sync_honours_only_the_last_notification() {
    let events = vec![
        DimensionChanged { dimension: 111 },
        DimensionChanged { dimension: 600 },
    ];
    let mut cells = initial_cell_elements(300);
    sync_cells(&events, &mut cells);
    for cell in &cells {
        assert_eq!(
            cell.rect,
            cell_rect(600, cell.address.col, cell.address.row)
        );
    }
}
