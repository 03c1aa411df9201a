//! The hover and animation state machine.
//!
//! Driven by per-cell pointer-interaction changes and a monotonic clock, it
//! tracks at most one "currently active" hover animation process-wide: the
//! most recently hovered cell's. Time is an unsigned tick count read from
//! the host's monotonic clock.

use vstd::prelude::*;

use crate::geometry::CellAddress;

verus! {

/// The pointer-interaction value the host reports for a cell: no
/// interaction, hovered, or pressed.
#[derive(Clone, Copy, PartialEq, Eq, Structural, Debug)]
pub enum PointerInteraction {
    Idle,
    Hovered,
    Pressed,
}

/// The cursor icon the host is asked to show: the plain arrow, or the
/// pointing hand while a cell is hovered.
#[derive(Clone, Copy, PartialEq, Eq, Structural, Debug)]
pub enum CursorIcon {
    Arrow,
    Pointer,
}

/// The hover animation state: inactive, or active for one target cell since
/// `start_time`.
#[derive(Clone, Copy, PartialEq, Eq, Structural, Debug)]
pub enum HoverState {
    Inactive,
    Active { target: CellAddress, start_time: u64 },
}

/// The side effects one interaction change asks of the host: a cursor icon
/// to set, if any, and a cell whose animation parameter must be reset to
/// zero, if any.
#[derive(Clone, Copy, PartialEq, Eq, Structural, Debug)]
pub struct HoverEffects {
    pub cursor: Option<CursorIcon>,
    pub reset_target: Option<CellAddress>,
}

/// One observed interaction change: which cell, and its new interaction
/// value.
#[derive(Clone, Copy, PartialEq, Eq, Structural, Debug)]
pub struct CellInteraction {
    pub cell: CellAddress,
    pub interaction: PointerInteraction,
}

/// An update to a cell's animation parameter: the elapsed ticks since its
/// animation started.
#[derive(Clone, Copy, PartialEq, Eq, Structural, Debug)]
pub struct AnimationUpdate {
    pub target: CellAddress,
    pub elapsed: u64,
}

/// The transition rule for one interaction change on one cell.
///
/// Hovered: the pointer cursor is requested and the state becomes active for
/// this cell; the start time is taken from the clock only when the state was
/// inactive — a previously active animation's start time is inherited,
/// whatever its target was. No interaction: the arrow cursor is requested,
/// this cell's animation parameter is reset, and the state becomes inactive.
/// Pressed: nothing changes.
pub open spec fn spec_hover_transition(
    state: HoverState,
    cell: CellAddress,
    interaction: PointerInteraction,
    now: u64,
) -> (HoverState, HoverEffects) {
    match interaction {
        PointerInteraction::Hovered => (
            HoverState::Active {
                target: cell,
                start_time: if state is Active {
                    state->start_time
                } else {
                    now
                },
            },
            HoverEffects { cursor: Some(CursorIcon::Pointer), reset_target: None },
        ),
        PointerInteraction::Idle => (
            HoverState::Inactive,
            HoverEffects { cursor: Some(CursorIcon::Arrow), reset_target: Some(cell) },
        ),
        PointerInteraction::Pressed => (
            state,
            HoverEffects { cursor: None, reset_target: None },
        ),
    }
}

/// Applies `spec_hover_transition` to one interaction change, returning the
/// next state and the host side effects.
pub fn hover_transition(
    state: HoverState,
    cell: CellAddress,
    interaction: PointerInteraction,
    now: u64,
) -> (r: (HoverState, HoverEffects))
    ensures
        r == spec_hover_transition(state, cell, interaction, now),
{
    match interaction {
        PointerInteraction::Hovered => {
            let start_time = match state {
                HoverState::Active { start_time, .. } => start_time,
                HoverState::Inactive => now,
            };
            (
                HoverState::Active { target: cell, start_time },
                HoverEffects { cursor: Some(CursorIcon::Pointer), reset_target: None },
            )
        },
        PointerInteraction::Idle => (
            HoverState::Inactive,
            HoverEffects { cursor: Some(CursorIcon::Arrow), reset_target: Some(cell) },
        ),
        PointerInteraction::Pressed => (
            state,
            HoverEffects { cursor: None, reset_target: None },
        ),
    }
}

/// The state and effects after folding a whole tick's batch of interaction
/// changes, in order, through `spec_hover_transition`.
pub open spec fn spec_hover_run(
    state: HoverState,
    changes: Seq<CellInteraction>,
    now: u64,
) -> (HoverState, Seq<HoverEffects>)
    decreases changes.len(),
{
    if changes.len() == 0 {
        (state, Seq::empty())
    } else {
        let prev = spec_hover_run(state, changes.drop_last(), now);
        let step = spec_hover_transition(
            prev.0,
            changes.last().cell,
            changes.last().interaction,
            now,
        );
        (step.0, prev.1.push(step.1))
    }
}

/// One step of the hover system for a tick: every cell whose interaction
/// changed is processed in order, and the host side effects are returned,
/// one per change.
pub fn hover_step(state: HoverState, changes: &Vec<CellInteraction>, now: u64) -> (r: (
    HoverState,
    Vec<HoverEffects>,
))
    ensures
        r.0 == spec_hover_run(state, changes@, now).0,
        r.1@ == spec_hover_run(state, changes@, now).1,
{
    let mut current = state;
    let mut effects: Vec<HoverEffects> = Vec::new();
    let mut i: usize = 0;
    while i < changes.len()
        invariant
            i <= changes@.len(),
            (current, effects@) == spec_hover_run(state, changes@.subrange(0, i as int), now),
        decreases changes@.len() - i,
    {
        let change = changes[i];
        let (next, effect) = hover_transition(current, change.cell, change.interaction, now);
        current = next;
        effects.push(effect);
        proof {
            let prefix = changes@.subrange(0, i + 1);
            assert(prefix.drop_last() =~= changes@.subrange(0, i as int));
            assert(prefix.last() == changes@[i as int]);
        }
        i = i + 1;
    }
    proof {
        assert(changes@.subrange(0, changes@.len() as int) =~= changes@);
    }
    (current, effects)
}

/// The per-tick animation advance: while the state is active and the target
/// still resolves to a live resource, the target's animation parameter
/// becomes the ticks elapsed since the animation started; otherwise the tick
/// is silently skipped. The clock is monotonic, so `now` is never before the
/// recorded start.
pub fn animation_advance(state: HoverState, now: u64, target_live: bool) -> (update: Option<
    AnimationUpdate,
>)
    requires
        state matches HoverState::Active { start_time, .. } ==> start_time <= now,
    ensures
        state matches HoverState::Active { target, start_time } ==> update == (if target_live {
            Some(AnimationUpdate { target, elapsed: (now - start_time) as u64 })
        } else {
            None
        }),
        state is Inactive ==> update is None,
{
    match state {
        HoverState::Inactive => None,
        HoverState::Active { target, start_time } => {
            if target_live {
                Some(AnimationUpdate { target, elapsed: now - start_time })
            } else {
                None
            }
        },
    }
}

/// The hover cycle law: from the inactive state, hovering cell `x` at time
/// `t0` requests the pointer cursor and activates the animation for `x`
/// starting at `t0`; leaving `x` afterwards requests the arrow cursor,
/// resets `x`'s animation parameter, and deactivates the state.
pub proof fn lemma_hover_cycle(x: CellAddress, t0: u64, t1: u64)
    ensures
        spec_hover_transition(HoverState::Inactive, x, PointerInteraction::Hovered, t0) == (
            HoverState::Active { target: x, start_time: t0 },
            HoverEffects { cursor: Some(CursorIcon::Pointer), reset_target: None },
        ),
        spec_hover_transition(
            HoverState::Active { target: x, start_time: t0 },
            x,
            PointerInteraction::Idle,
            t1,
        ) == (
            HoverState::Inactive,
            HoverEffects { cursor: Some(CursorIcon::Arrow), reset_target: Some(x) },
        ),
{
}

/// A pressed interaction never changes the hover state: neither activity,
/// target, nor start time.
pub proof fn lemma_pressed_preserves_state(
    state: HoverState,
    cell: CellAddress,
    now: u64,
)
    ensures
        spec_hover_transition(state, cell, PointerInteraction::Pressed, now).0 == state,
{
}

} // verus!
