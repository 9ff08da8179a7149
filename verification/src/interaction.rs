//! The pointer-interaction state machine.
//!
//! Raw pointer and wheel events are folded into a small interaction mode
//! (idle, or dragging with the last pointer position as anchor) plus an
//! optional emitted transform delta.  Every event is processed to
//! completion by one `handle_event` call: the returned triple carries the
//! next mode, whether the event was captured by the viewport, and the
//! delta, which the consuming controller applies to its transform.

use vstd::prelude::*;
use crate::transform::{Bounds, COORD_LIMIT};

verus! {

/// The interaction mode: idle, or dragging with the anchor pixel of the
/// last observed pointer position.
#[derive(Clone, Copy, Debug, PartialEq, Eq, Structural)]
pub enum InteractionMode {
    Idle,
    Dragging { x: i64, y: i64 },
}

impl InteractionMode {
    /// A drag anchor stays within the coordinate limit.
    pub open spec fn wf(self) -> bool {
        match self {
            InteractionMode::Idle => true,
            InteractionMode::Dragging { x, y } => -COORD_LIMIT <= x <= COORD_LIMIT
                && -COORD_LIMIT <= y <= COORD_LIMIT,
        }
    }
}

/// A raw pointer event, already reduced to plain pixel values.
#[derive(Clone, Copy, Debug, PartialEq, Eq, Structural)]
pub enum PointerEvent {
    /// The primary button went down.
    PressPrimary,
    /// The primary button went up.
    ReleasePrimary,
    /// The pointer moved to the given pixel.
    Moved { x: i64, y: i64 },
    /// The wheel turned by the given number of ticks (one tick is one
    /// fifth of a zoom level; positive zooms in).
    Wheel { delta_y: i32 },
}

impl PointerEvent {
    /// A moved-to position stays within the coordinate limit.
    pub open spec fn wf(self) -> bool {
        match self {
            PointerEvent::Moved { x, y } => -COORD_LIMIT <= x <= COORD_LIMIT && -COORD_LIMIT <= y
                <= COORD_LIMIT,
            _ => true,
        }
    }
}

/// A transform delta emitted by the state machine, to be applied by the
/// consuming controller.
#[derive(Clone, Copy, Debug, PartialEq, Eq, Structural)]
pub enum TransformDelta {
    /// Pan by the pointer movement, in pixels.
    Pan { dx: i64, dy: i64 },
    /// Zoom by `delta_y` fifths of a zoom level about the cursor pixel,
    /// within the given viewport bounds.
    Zoom { cursor_x: i64, cursor_y: i64, bounds: Bounds, delta_y: i32 },
}

/// The full transition function of the state machine: next mode, whether
/// the event was captured, and the emitted delta.
///
/// - press inside the bounds while idle starts a drag at the cursor;
/// - any move while dragging re-anchors the drag and emits the pan delta;
/// - release while dragging ends the drag;
/// - a wheel turn with the cursor inside the bounds emits a zoom delta and
///   leaves the mode alone;
/// - everything else is ignored and passes through uncaptured.
pub open spec fn step(
    m: InteractionMode,
    ev: PointerEvent,
    b: Bounds,
    cursor: Option<(i64, i64)>,
) -> (InteractionMode, bool, Option<TransformDelta>) {
    match ev {
        PointerEvent::PressPrimary => match m {
            InteractionMode::Idle => match cursor {
                Some(p) => if b.contains_spec(p.0 as int, p.1 as int) {
                    (
                        InteractionMode::Dragging { x: p.0, y: p.1 },
                        true,
                        None::<TransformDelta>,
                    )
                } else {
                    (m, false, None)
                },
                None => (m, false, None),
            },
            InteractionMode::Dragging { .. } => (m, false, None),
        },
        PointerEvent::ReleasePrimary => match m {
            InteractionMode::Idle => (m, false, None),
            InteractionMode::Dragging { .. } => (InteractionMode::Idle, true, None),
        },
        PointerEvent::Moved { x, y } => match m {
            InteractionMode::Idle => (m, false, None),
            InteractionMode::Dragging { x: ax, y: ay } => (
                InteractionMode::Dragging { x, y },
                true,
                Some(TransformDelta::Pan { dx: (x - ax) as i64, dy: (y - ay) as i64 }),
            ),
        },
        PointerEvent::Wheel { delta_y } => match cursor {
            Some(p) => if b.contains_spec(p.0 as int, p.1 as int) {
                (
                    m,
                    true,
                    Some(
                        TransformDelta::Zoom {
                            cursor_x: p.0,
                            cursor_y: p.1,
                            bounds: b,
                            delta_y,
                        },
                    ),
                )
            } else {
                (m, false, None)
            },
            None => (m, false, None),
        },
    }
}

/// Executable form of `step`.
pub fn handle_event(
    m: InteractionMode,
    ev: PointerEvent,
    b: Bounds,
    cursor: Option<(i64, i64)>,
) -> (r: (InteractionMode, bool, Option<TransformDelta>))
    requires
        m.wf(),
        ev.wf(),
        b.wf(),
        cursor matches Some(p) ==> -COORD_LIMIT <= p.0 <= COORD_LIMIT && -COORD_LIMIT <= p.1
            <= COORD_LIMIT,
    ensures
        r == step(m, ev, b, cursor),
        r.0.wf(),
{
    match ev {
        PointerEvent::PressPrimary => match m {
            InteractionMode::Idle => match cursor {
                Some(p) => if b.contains(p.0, p.1) {
                    (InteractionMode::Dragging { x: p.0, y: p.1 }, true, None)
                } else {
                    (m, false, None)
                },
                None => (m, false, None),
            },
            InteractionMode::Dragging { .. } => (m, false, None),
        },
        PointerEvent::ReleasePrimary => match m {
            InteractionMode::Idle => (m, false, None),
            InteractionMode::Dragging { .. } => (InteractionMode::Idle, true, None),
        },
        PointerEvent::Moved { x, y } => match m {
            InteractionMode::Idle => (m, false, None),
            InteractionMode::Dragging { x: ax, y: ay } => (
                InteractionMode::Dragging { x, y },
                true,
                Some(TransformDelta::Pan { dx: x - ax, dy: y - ay }),
            ),
        },
        PointerEvent::Wheel { delta_y } => match cursor {
            Some(p) => if b.contains(p.0, p.1) {
                (
                    m,
                    true,
                    Some(
                        TransformDelta::Zoom {
                            cursor_x: p.0,
                            cursor_y: p.1,
                            bounds: b,
                            delta_y,
                        },
                    ),
                )
            } else {
                (m, false, None)
            },
            None => (m, false, None),
        },
    }
}

/// A release with no drag in progress stays idle and is not captured.
pub proof fn lemma_release_while_idle(b: Bounds, cursor: Option<(i64, i64)>)
    ensures
        step(InteractionMode::Idle, PointerEvent::ReleasePrimary, b, cursor) == (
            InteractionMode::Idle,
            false,
            None::<TransformDelta>,
        ),
{
}

/// A move to the drag anchor itself emits a pan delta of `(0, 0)` and
/// keeps dragging from the same anchor.
pub proof fn lemma_drag_zero_move(x: i64, y: i64, b: Bounds, cursor: Option<(i64, i64)>)
    ensures
        step(
            InteractionMode::Dragging { x, y },
            PointerEvent::Moved { x, y },
            b,
            cursor,
        ) == (
            InteractionMode::Dragging { x, y },
            true,
            Some(TransformDelta::Pan { dx: 0i64, dy: 0i64 }),
        ),
{
}

} // verus!
