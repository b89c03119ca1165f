use vstd::prelude::*;

verus! {

/// The kinds of platform event that a drag listens to.
#[derive(Clone, Copy, Debug, PartialEq, Eq, Structural)]
pub enum EventKind {
    PointerDown,
    PointerMove,
    PointerUp,
}

impl EventKind {
    pub open spec fn spec_name(self) -> Seq<char> {
        match self {
            EventKind::PointerDown => "pointerdown"@,
            EventKind::PointerMove => "pointermove"@,
            EventKind::PointerUp => "pointerup"@,
        }
    }

    /// The platform's name for this event kind.
    pub fn name(&self) -> (r: &'static str)
        ensures
            r@ == self.spec_name(),
    {
        match self {
            EventKind::PointerDown => "pointerdown",
            EventKind::PointerMove => "pointermove",
            EventKind::PointerUp => "pointerup",
        }
    }
}

/// At most one registered handler per event kind.
pub struct ListenerSet<H> {
    down: Option<H>,
    moving: Option<H>,
    up: Option<H>,
}

impl<H> ListenerSet<H> {
    /// The handler registered for `kind`, if any.
    pub closed spec fn slot(&self, kind: EventKind) -> Option<H> {
        match kind {
            EventKind::PointerDown => self.down,
            EventKind::PointerMove => self.moving,
            EventKind::PointerUp => self.up,
        }
    }

    /// Number of live handlers for `kind`.
    pub open spec fn live_count(&self, kind: EventKind) -> nat {
        if self.slot(kind) is Some { 1 } else { 0 }
    }

    pub open spec fn none_live(&self) -> bool {
        forall|k: EventKind| #[trigger] self.slot(k) is None
    }

    pub open spec fn all_live(&self) -> bool {
        forall|k: EventKind| #[trigger] self.slot(k) is Some
    }

    /// The live handlers, each with its kind, in the order down, move, up.
    pub open spec fn live(&self) -> Seq<(EventKind, H)> {
        let d = match self.slot(EventKind::PointerDown) {
            Some(h) => seq![(EventKind::PointerDown, h)],
            None => Seq::empty(),
        };
        let m = match self.slot(EventKind::PointerMove) {
            Some(h) => seq![(EventKind::PointerMove, h)],
            None => Seq::empty(),
        };
        let u = match self.slot(EventKind::PointerUp) {
            Some(h) => seq![(EventKind::PointerUp, h)],
            None => Seq::empty(),
        };
        d + m + u
    }

    /// A set with no handler registered.
    pub fn new() -> (r: ListenerSet<H>)
        ensures
            r.none_live(),
    {
        ListenerSet { down: None, moving: None, up: None }
    }

    /// Whether a handler is registered for `kind`.
    pub fn is_live(&self, kind: EventKind) -> (r: bool)
        ensures
            r == (self.slot(kind) is Some),
    {
        match kind {
            EventKind::PointerDown => self.down.is_some(),
            EventKind::PointerMove => self.moving.is_some(),
            EventKind::PointerUp => self.up.is_some(),
        }
    }

    /// The handler registered for `kind`, if any.
    pub fn get(&self, kind: EventKind) -> (r: Option<&H>)
        ensures
            r is Some <==> self.slot(kind) is Some,
            r is Some ==> *r->0 == self.slot(kind)->0,
    {
        match kind {
            EventKind::PointerDown => self.down.as_ref(),
            EventKind::PointerMove => self.moving.as_ref(),
            EventKind::PointerUp => self.up.as_ref(),
        }
    }

    /// Registers `handler` for `kind`; a kind holds one handler at a time.
    pub fn attach(&mut self, kind: EventKind, handler: H)
        requires
            old(self).slot(kind) is None,
        ensures
            final(self).slot(kind) == Some(handler),
            forall|k: EventKind| k != kind ==> #[trigger] final(self).slot(k) == old(self).slot(k),
    {
        match kind {
            EventKind::PointerDown => self.down = Some(handler),
            EventKind::PointerMove => self.moving = Some(handler),
            EventKind::PointerUp => self.up = Some(handler),
        }
    }

    /// Unregisters the handler for `kind` and hands it back; `None`, and no
    /// change, when none is registered.
    pub fn detach(&mut self, kind: EventKind) -> (r: Option<H>)
        ensures
            r == old(self).slot(kind),
            final(self).slot(kind) is None,
            forall|k: EventKind| k != kind ==> #[trigger] final(self).slot(k) == old(self).slot(k),
    {
        match kind {
            EventKind::PointerDown => self.down.take(),
            EventKind::PointerMove => self.moving.take(),
            EventKind::PointerUp => self.up.take(),
        }
    }
}

} // verus!
