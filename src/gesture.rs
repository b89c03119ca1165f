use vstd::prelude::*;
use crate::geometry::{delta, in_span, relative_origin, spec_delta, spec_relative_origin};
use crate::listeners::EventKind;

verus! {

/// Phase of a drag reported to the caller's callback.
#[derive(Clone, Copy, Debug, PartialEq, Eq, Structural)]
pub enum DragState {
    Move,
    End,
}

/// One invocation of the caller's callback: `callback(phase, dx, dy)`.
///
/// For `Move`, `(dx, dy)` is the pointer position minus the drag origin; for
/// `End`, it is the pointer's absolute client position.
#[derive(Clone, Copy, Debug, PartialEq, Eq, Structural)]
pub struct DragReport {
    pub phase: DragState,
    pub dx: i64,
    pub dy: i64,
}

/// A pointer event as it reaches the gesture, in whole client pixels.
///
/// A press carries the bounding box of the element (its left and top edges),
/// queried when the press happened.
#[derive(Clone, Copy, Debug, PartialEq, Eq, Structural)]
pub enum PointerInput {
    Down { x: i32, y: i32, left: i32, top: i32 },
    Move { x: i32, y: i32 },
    Up { x: i32, y: i32 },
}

impl PointerInput {
    pub open spec fn spec_kind(self) -> EventKind {
        match self {
            PointerInput::Down { .. } => EventKind::PointerDown,
            PointerInput::Move { .. } => EventKind::PointerMove,
            PointerInput::Up { .. } => EventKind::PointerUp,
        }
    }

    /// The kind of platform event that delivers this input.
    pub fn kind(&self) -> (r: EventKind)
        ensures
            r == self.spec_kind(),
    {
        match self {
            PointerInput::Down { .. } => EventKind::PointerDown,
            PointerInput::Move { .. } => EventKind::PointerMove,
            PointerInput::Up { .. } => EventKind::PointerUp,
        }
    }
}

/// The report that the gesture emits on `input`, given its drag origin.
pub open spec fn spec_report(origin: Option<(int, int)>, input: PointerInput) -> Option<DragReport> {
    match input {
        PointerInput::Down { .. } => None,
        PointerInput::Move { x, y } => match origin {
            Some(o) => {
                let d = spec_delta(x as int, y as int, o.0, o.1);
                Some(DragReport { phase: DragState::Move, dx: d.0 as i64, dy: d.1 as i64 })
            },
            None => None,
        },
        PointerInput::Up { x, y } => Some(DragReport { phase: DragState::End, dx: x as i64, dy: y as i64 }),
    }
}

/// The drag origin after `input`.
pub open spec fn spec_next_origin(origin: Option<(int, int)>, input: PointerInput) -> Option<(int, int)> {
    match input {
        PointerInput::Down { x, y, left, top } => Some(spec_relative_origin(x as int, y as int, left as int, top as int)),
        PointerInput::Move { .. } => origin,
        PointerInput::Up { .. } => None,
    }
}

/// The gesture state machine: `Idle` when no origin is held, `Dragging`
/// when one is.
pub struct Gesture {
    /// The pointer position relative to the element's box when the drag
    /// started; present exactly while a drag is in progress.
    pub origin: Option<(i64, i64)>,
}

impl Gesture {
    /// The origin is a difference of two client coordinates.
    pub open spec fn wf(&self) -> bool {
        match self.origin {
            Some(o) => in_span(o.0 as int) && in_span(o.1 as int),
            None => true,
        }
    }

    /// The drag origin over mathematical integers.
    pub open spec fn origin_view(&self) -> Option<(int, int)> {
        match self.origin {
            Some(o) => Some((o.0 as int, o.1 as int)),
            None => None,
        }
    }

    pub open spec fn is_dragging(&self) -> bool {
        self.origin is Some
    }

    /// A gesture in the `Idle` state.
    pub fn new() -> (r: Gesture)
        ensures
            r.wf(),
            r.origin_view() == None::<(int, int)>,
    {
        Gesture { origin: None }
    }

    /// Whether a drag is in progress.
    pub fn dragging(&self) -> (r: bool)
        ensures
            r == self.is_dragging(),
    {
        self.origin.is_some()
    }

    /// A press at `(x, y)` on an element whose box starts at `(left, top)`:
    /// the origin becomes the press position relative to the box. A press
    /// while dragging restarts the reference frame. Emits nothing.
    pub fn pointer_down(&mut self, x: i32, y: i32, left: i32, top: i32)
        ensures
            final(self).wf(),
            final(self).origin_view() == Some(spec_relative_origin(x as int, y as int, left as int, top as int)),
    {
        let o = relative_origin(x, y, left, top);
        self.origin = Some(o);
    }

    /// A move to `(x, y)`: while dragging, reports `Move` with the position
    /// minus the origin; while idle, reports nothing.
    pub fn pointer_move(&self, x: i32, y: i32) -> (r: Option<DragReport>)
        requires
            self.wf(),
        ensures
            r == spec_report(self.origin_view(), PointerInput::Move { x, y }),
            self.origin is None ==> r is None,
    {
        match self.origin {
            Some(o) => {
                let d = delta(x, y, o.0, o.1);
                Some(DragReport { phase: DragState::Move, dx: d.0, dy: d.1 })
            },
            None => None,
        }
    }

    /// A release at `(x, y)`: reports `End` with the absolute position and
    /// clears the origin.
    pub fn pointer_up(&mut self, x: i32, y: i32) -> (r: DragReport)
        ensures
            final(self).wf(),
            final(self).origin_view() == None::<(int, int)>,
            r == (DragReport { phase: DragState::End, dx: x as i64, dy: y as i64 }),
    {
        self.origin = None;
        DragReport { phase: DragState::End, dx: x as i64, dy: y as i64 }
    }

    /// Feeds one pointer event to the state machine.
    pub fn step(&mut self, input: PointerInput) -> (r: Option<DragReport>)
        requires
            old(self).wf(),
        ensures
            final(self).wf(),
            r == spec_report(old(self).origin_view(), input),
            final(self).origin_view() == spec_next_origin(old(self).origin_view(), input),
    {
        match input {
            PointerInput::Down { x, y, left, top } => {
                self.pointer_down(x, y, left, top);
                None
            },
            PointerInput::Move { x, y } => self.pointer_move(x, y),
            PointerInput::Up { x, y } => Some(self.pointer_up(x, y)),
        }
    }
}

} // verus!
