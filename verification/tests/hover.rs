use tictactoe_board::geometry::CellAddress;
use tictactoe_board::hover::{
    animation_advance, hover_step, hover_transition, AnimationUpdate, CellInteraction, CursorIcon,
    HoverState, PointerInteraction,
};

fn x() -> CellAddress {
    CellAddress { col: 1, row: 2 }
}

fn y() -> CellAddress {
    CellAddress { col: 0, row: 0 }
}

#[test]
fn hover_cycle_activates_then_clears() {
    // None -> Hovered on X at t0 = 5: pointer cursor, active for X since 5.
    let (state, effects) =
        hover_transition(HoverState::Inactive, x(), PointerInteraction::Hovered, 5);
    assert_eq!(
        state,
        HoverState::Active {
            target: x(),
            start_time: 5
        }
    );
    assert_eq!(effects.cursor, Some(CursorIcon::Pointer));
    assert_eq!(effects.reset_target, None);

    // Hovered -> None on X: arrow cursor, X's parameter reset, inactive.
    let (state, effects) = hover_transition(state, x(), PointerInteraction::Idle, 9);
    assert_eq!(state, HoverState::Inactive);
    assert_eq!(effects.cursor, Some(CursorIcon::Arrow));
    assert_eq!(effects.reset_target, Some(x()));
}

#[test]
fn pressed_changes_nothing() {
    let active = HoverState::Active {
        target: x(),
        start_time: 42,
    };
    let (state, effects) = hover_transition(active, x(), PointerInteraction::Pressed, 99);
    assert_eq!(state, active);
    assert_eq!(effects.cursor, None);
    assert_eq!(effects.reset_target, None);

    let (state, _) = hover_transition(HoverState::Inactive, y(), PointerInteraction::Pressed, 99);
    assert_eq!(state, HoverState::Inactive);
}

#[test]
fn an_already_active_animation_keeps_its_start_time() {
    // Hovering a second cell while the state is still active for another
    // inherits the running start time instead of restarting the clock.
    let active_for_y = HoverState::Active {
        target: y(),
        start_time: 3,
    };
    let (state, _) = hover_transition(active_for_y, x(), PointerInteraction::Hovered, 10);
    assert_eq!(
        state,
        HoverState::Active {
            target: x(),
            start_time: 3
        }
    );
}

#[test]
fn a_tick_batch_is_processed_in_order() {
    let changes = vec![
        CellInteraction {
            cell: x(),
            interaction: PointerInteraction::Hovered,
        },
        CellInteraction {
            cell: x(),
            interaction: PointerInteraction::Idle,
        },
    ];
    let (state, effects) = hover_step(HoverState::Inactive, &changes, 7);
    assert_eq!(state, HoverState::Inactive);
    assert_eq!(effects.len(), 2);
    assert_eq!(effects[0].cursor, Some(CursorIcon::Pointer));
    assert_eq!(effects[1].cursor, Some(CursorIcon::Arrow));
    assert_eq!(effects[1].reset_target, Some(x()));
}

#[test]
fn an_empty_batch_changes_nothing() {
    let active = HoverState::Active {
        target: y(),
        start_time: 1,
    };
    let (state, effects) = hover_step(active, &vec![], 7);
    assert_eq!(state, active);
    assert!(effects.is_empty());
}

#[test]
fn advance_reports_elapsed_ticks_while_live() {
    let active = HoverState::Active {
        target: x(),
        start_time: 100,
    };
    assert_eq!(
        animation_advance(active, 250, true),
        Some(AnimationUpdate {
            target: x(),
            elapsed: 150
        })
    );
}

#[test]
fn advance_skips_a_dead_target_or_inactive_state() {
    let active = HoverState::Active {
        target: x(),
        start_time: 100,
    };
    assert_eq!(animation_advance(active, 250, false), None);
    assert_eq!(animation_advance(HoverState::Inactive, 250, true), None);
}
