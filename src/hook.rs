use vstd::prelude::*;
use crate::gesture::{spec_next_origin, spec_report, DragReport, Gesture, PointerInput};
use crate::listeners::{EventKind, ListenerSet};

verus! {

/// The state of one drag hook: the element it is bound to (`E`, shared with
/// the host), the handlers registered on it (`H`, one per event kind), and
/// the gesture.
///
/// Handlers are registered all three or none, and only while an element is
/// stored.
pub struct DragHook<E, H> {
    element: Option<E>,
    listeners: ListenerSet<H>,
    gesture: Gesture,
}

/// `post` is `pre` after `mount(e)` returned `r`: unless the handlers are
/// already registered, the element is stored and `r` asks for the handlers;
/// once they are, the call changes nothing.
pub open spec fn mounted<E, H>(pre: DragHook<E, H>, e: E, r: bool, post: DragHook<E, H>) -> bool {
    &&& r == !pre.is_attached()
    &&& post.element_view() == (if pre.is_attached() { pre.element_view() } else { Some(e) })
    &&& post.listeners_view() == pre.listeners_view()
    &&& post.origin_view() == pre.origin_view()
}

/// `post` is `pre` after `attach(d, m, u)` returned `r`: the handlers are
/// registered when an element is stored and none are yet, and nothing
/// changes otherwise.
pub open spec fn attached<E, H>(pre: DragHook<E, H>, d: H, m: H, u: H, r: bool, post: DragHook<E, H>) -> bool {
    &&& r == (pre.element_view() is Some && !pre.is_attached())
    &&& r ==> {
        &&& post.listeners_view().slot(EventKind::PointerDown) == Some(d)
        &&& post.listeners_view().slot(EventKind::PointerMove) == Some(m)
        &&& post.listeners_view().slot(EventKind::PointerUp) == Some(u)
    }
    &&& !r ==> post.listeners_view() == pre.listeners_view()
    &&& post.element_view() == pre.element_view()
    &&& post.origin_view() == pre.origin_view()
}

/// `post` is `pre` after `destroy()` returned `r`: with an element stored,
/// `r` holds it and every handler that was registered, to be unregistered;
/// with none, `r` is `None`. Either way `post` is empty: no element, no
/// handler, no drag.
pub open spec fn torn_down<E, H>(pre: DragHook<E, H>, r: Option<(E, Seq<(EventKind, H)>)>, post: DragHook<E, H>) -> bool {
    &&& r is None <==> pre.element_view() is None
    &&& r matches Some(t) ==> t.0 == pre.element_view()->0 && t.1 == pre.listeners_view().live()
    &&& post.is_empty()
}

/// What a pointer event does to a hook: it reaches the gesture only if a
/// handler of its kind is registered.
pub open spec fn spec_handle<E, H>(h: DragHook<E, H>, input: PointerInput) -> (Option<DragReport>, Option<(int, int)>) {
    if h.listeners_view().slot(input.spec_kind()) is Some {
        (spec_report(h.origin_view(), input), spec_next_origin(h.origin_view(), input))
    } else {
        (None, h.origin_view())
    }
}

impl<E, H> DragHook<E, H> {
    pub closed spec fn element_view(&self) -> Option<E> {
        self.element
    }

    pub closed spec fn listeners_view(&self) -> ListenerSet<H> {
        self.listeners
    }

    /// The drag origin, present exactly while a drag is in progress.
    pub closed spec fn origin_view(&self) -> Option<(int, int)> {
        self.gesture.origin_view()
    }

    pub closed spec fn wf(&self) -> bool {
        &&& self.gesture.wf()
        &&& self.listeners.none_live() || (self.listeners.all_live() && self.element is Some)
    }

    /// All three handlers are registered.
    pub open spec fn is_attached(&self) -> bool {
        &&& self.listeners_view().slot(EventKind::PointerDown) is Some
        &&& self.listeners_view().slot(EventKind::PointerMove) is Some
        &&& self.listeners_view().slot(EventKind::PointerUp) is Some
    }

    /// No element, no handler, no drag: the state of a fresh hook and of one
    /// that was destroyed.
    pub open spec fn is_empty(&self) -> bool {
        &&& self.element_view() is None
        &&& self.listeners_view().none_live()
        &&& self.origin_view() is None
    }

    /// A hook that is not mounted.
    pub fn new() -> (r: DragHook<E, H>)
        ensures
            r.wf(),
            r.is_empty(),
    {
        DragHook { element: None, listeners: ListenerSet::new(), gesture: Gesture::new() }
    }

    /// The element stored by the last effective `mount`.
    pub fn element(&self) -> (r: Option<&E>)
        ensures
            r is Some <==> self.element_view() is Some,
            r is Some ==> *r->0 == self.element_view()->0,
    {
        self.element.as_ref()
    }

    /// The handler registered for `kind`, if any.
    pub fn listener(&self, kind: EventKind) -> (r: Option<&H>)
        ensures
            r is Some <==> self.listeners_view().slot(kind) is Some,
            r is Some ==> *r->0 == self.listeners_view().slot(kind)->0,
    {
        self.listeners.get(kind)
    }

    /// Whether the handlers are registered.
    pub fn listening(&self) -> (r: bool)
        requires
            self.wf(),
        ensures
            r == self.is_attached(),
    {
        self.listeners.is_live(EventKind::PointerDown)
    }

    /// Whether a drag is in progress.
    pub fn dragging(&self) -> (r: bool)
        ensures
            r == (self.origin_view() is Some),
    {
        self.gesture.dragging()
    }

    /// The host signals that `element` is available. Returns whether the
    /// caller must build the handlers and pass them to `attach`.
    pub fn mount(&mut self, element: E) -> (r: bool)
        requires
            old(self).wf(),
        ensures
            final(self).wf(),
            mounted(*old(self), element, r, *final(self)),
    {
        if self.listeners.is_live(EventKind::PointerDown) {
            false
        } else {
            self.element = Some(element);
            true
        }
    }

    /// Registers the three handlers if an element is stored and none are
    /// registered yet; returns whether it did. The caller registers them
    /// with the platform exactly when this returns `true`.
    pub fn attach(&mut self, down: H, moving: H, up: H) -> (r: bool)
        requires
            old(self).wf(),
        ensures
            final(self).wf(),
            attached(*old(self), down, moving, up, r, *final(self)),
    {
        if self.element.is_none() || self.listeners.is_live(EventKind::PointerDown) {
            false
        } else {
            self.listeners.attach(EventKind::PointerDown, down);
            self.listeners.attach(EventKind::PointerMove, moving);
            self.listeners.attach(EventKind::PointerUp, up);
            assert(self.listeners.all_live()) by {
                assert forall|k: EventKind| #[trigger] self.listeners.slot(k) is Some by {
                    match k {
                        EventKind::PointerDown => {},
                        EventKind::PointerMove => {},
                        EventKind::PointerUp => {},
                    }
                }
            }
            true
        }
    }

    /// Feeds a pointer event delivered by the platform. An event of a kind
    /// with no registered handler does nothing.
    pub fn handle(&mut self, input: PointerInput) -> (r: Option<DragReport>)
        requires
            old(self).wf(),
        ensures
            final(self).wf(),
            r == spec_handle(*old(self), input).0,
            final(self).origin_view() == spec_handle(*old(self), input).1,
            final(self).element_view() == old(self).element_view(),
            final(self).listeners_view() == old(self).listeners_view(),
    {
        let kind = input.kind();
        if self.listeners.is_live(kind) {
            self.gesture.step(input)
        } else {
            None
        }
    }

    /// The host signals that the component is destroyed. Drops the drag
    /// without reporting `End`, and hands back the stored element with every
    /// registered handler, for the caller to unregister; `None` when no
    /// element is stored.
    pub fn destroy(&mut self) -> (r: Option<(E, Vec<(EventKind, H)>)>)
        requires
            old(self).wf(),
        ensures
            final(self).wf(),
            torn_down(
                *old(self),
                match r {
                    Some(t) => Some((t.0, t.1@)),
                    None => None,
                },
                *final(self),
            ),
    {
        self.gesture = Gesture::new();
        match self.element.take() {
            None => {
                assert(self.listeners.live() =~= Seq::<(EventKind, H)>::empty());
                None
            },
            Some(e) => {
                let ghost pre = self.listeners;
                let mut out: Vec<(EventKind, H)> = Vec::new();
                match self.listeners.detach(EventKind::PointerDown) {
                    Some(h) => out.push((EventKind::PointerDown, h)),
                    None => {},
                }
                match self.listeners.detach(EventKind::PointerMove) {
                    Some(h) => out.push((EventKind::PointerMove, h)),
                    None => {},
                }
                match self.listeners.detach(EventKind::PointerUp) {
                    Some(h) => out.push((EventKind::PointerUp, h)),
                    None => {},
                }
                assert(self.listeners.none_live()) by {
                    assert forall|k: EventKind| #[trigger] self.listeners.slot(k) is None by {
                        match k {
                            EventKind::PointerDown => {},
                            EventKind::PointerMove => {},
                            EventKind::PointerUp => {},
                        }
                    }
                }
                assert(out@ =~= pre.live());
                Some((e, out))
            },
        }
    }
}

/// A move delivered while no drag is in progress reports nothing and leaves
/// the hook idle.
pub proof fn lemma_idle_move_is_silent<E, H>(h: DragHook<E, H>, x: i32, y: i32)
    requires
        h.origin_view() is None,
    ensures
        spec_handle(h, PointerInput::Move { x, y }).0 is None,
        spec_handle(h, PointerInput::Move { x, y }).1 is None,
{
}

/// Destroying a hook, even in the middle of a drag, hands back every
/// registered handler for unregistering and emits no `End`; afterwards no
/// pointer event of any kind reaches the gesture, so none reports anything.
pub proof fn lemma_teardown_is_unconditional<E, H>(
    pre: DragHook<E, H>,
    r: Option<(E, Seq<(EventKind, H)>)>,
    post: DragHook<E, H>,
    input: PointerInput,
)
    requires
        pre.wf(),
        torn_down(pre, r, post),
    ensures
        pre.is_attached() ==> (r matches Some(t) && t.1 == seq![
            (EventKind::PointerDown, pre.listeners_view().slot(EventKind::PointerDown)->0),
            (EventKind::PointerMove, pre.listeners_view().slot(EventKind::PointerMove)->0),
            (EventKind::PointerUp, pre.listeners_view().slot(EventKind::PointerUp)->0),
        ]),
        forall|k: EventKind| #[trigger] post.listeners_view().live_count(k) == 0,
        post.origin_view() is None,
        spec_handle(post, input).0 is None,
        spec_handle(post, input).1 is None,
{
    if pre.is_attached() {
        assert(pre.element_view() is Some);
        let t = r->0;
        assert(t.1 =~= seq![
            (EventKind::PointerDown, pre.listeners_view().slot(EventKind::PointerDown)->0),
            (EventKind::PointerMove, pre.listeners_view().slot(EventKind::PointerMove)->0),
            (EventKind::PointerUp, pre.listeners_view().slot(EventKind::PointerUp)->0),
        ]);
    }
    assert(post.listeners_view().slot(input.spec_kind()) is None);
}

/// Destroying twice, or destroying a hook that was never mounted, hands back
/// nothing the second time (or at all), so no handler is unregistered twice.
pub proof fn lemma_teardown_is_idempotent<E, H>(
    pre: DragHook<E, H>,
    r1: Option<(E, Seq<(EventKind, H)>)>,
    mid: DragHook<E, H>,
    r2: Option<(E, Seq<(EventKind, H)>)>,
    post: DragHook<E, H>,
)
    requires
        pre.wf(),
        torn_down(pre, r1, mid),
        torn_down(mid, r2, post),
    ensures
        r2 is None,
        pre.is_empty() ==> r1 is None,
{
}

/// Mounting a second time, with the same element or another, before any
/// destroy, never registers a second set of handlers: across both mounts the
/// handlers are registered with the platform at most once, each kind keeps at
/// most one live handler, and the set registered first stays in place.
pub proof fn lemma_remount_keeps_one_listener_set<E, H>(
    h0: DragHook<E, H>,
    e1: E,
    r1: bool,
    h1: DragHook<E, H>,
    d1: H,
    m1: H,
    u1: H,
    a1: bool,
    h2: DragHook<E, H>,
    e2: E,
    r2: bool,
    h3: DragHook<E, H>,
    d2: H,
    m2: H,
    u2: H,
    a2: bool,
    h4: DragHook<E, H>,
)
    requires
        h0.wf(),
        mounted(h0, e1, r1, h1),
        attached(h1, d1, m1, u1, a1, h2),
        mounted(h2, e2, r2, h3),
        attached(h3, d2, m2, u2, a2, h4),
    ensures
        !(a1 && a2),
        h0.is_attached() ==> !a1 && !a2,
        a1 ==> !r2 && h4.listeners_view() == h2.listeners_view() && h4.element_view() == Some(e1),
        forall|k: EventKind| #[trigger] h4.listeners_view().live_count(k) <= 1,
{
    if a1 {
        assert(h2.is_attached());
    }
}

} // verus!
