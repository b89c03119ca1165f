use dioxus_drag::geometry::{delta, relative_origin};
use dioxus_drag::{DragHook, DragReport, DragState, EventKind, Gesture, ListenerSet, PointerInput};

fn mounted_hook() -> DragHook<&'static str, u32> {
    let mut h: DragHook<&'static str, u32> = DragHook::new();
    assert!(h.mount("el"));
    assert!(h.attach(1, 2, 3));
    h
}

#[test]
fn origin_is_press_relative_to_box() {
    let mut g = Gesture::new();
    g.pointer_down(50, 50, 10, 10);
    assert_eq!(g.origin, Some((40, 40)));
}

#[test]
fn move_reports_delta_from_origin() {
    let mut g = Gesture::new();
    g.pointer_down(50, 50, 10, 10);
    let r = g.pointer_move(90, 80);
    assert_eq!(r, Some(DragReport { phase: DragState::Move, dx: 50, dy: 40 }));
    assert_eq!(g.origin, Some((40, 40)));
}

#[test]
fn end_reports_absolute_position() {
    let mut g = Gesture::new();
    g.pointer_down(50, 50, 10, 10);
    let _ = g.pointer_move(90, 80);
    let r = g.pointer_up(200, 300);
    assert_eq!(r, DragReport { phase: DragState::End, dx: 200, dy: 300 });
    assert_eq!(g.origin, None);
    assert!(!g.dragging());
}

#[test]
fn full_drag_through_hook() {
    let mut h = mounted_hook();
    assert_eq!(h.handle(PointerInput::Down { x: 50, y: 50, left: 10, top: 10 }), None);
    assert!(h.dragging());
    assert_eq!(
        h.handle(PointerInput::Move { x: 90, y: 80 }),
        Some(DragReport { phase: DragState::Move, dx: 50, dy: 40 })
    );
    assert_eq!(
        h.handle(PointerInput::Up { x: 200, y: 300 }),
        Some(DragReport { phase: DragState::End, dx: 200, dy: 300 })
    );
    assert!(!h.dragging());
}

#[test]
fn idle_move_reports_nothing() {
    let g = Gesture::new();
    assert_eq!(g.pointer_move(90, 80), None);
    let mut h = mounted_hook();
    assert_eq!(h.handle(PointerInput::Move { x: 90, y: 80 }), None);
    assert!(!h.dragging());
}

#[test]
fn second_press_restarts_reference_frame() {
    let mut g = Gesture::new();
    g.pointer_down(50, 50, 10, 10);
    g.pointer_down(30, 20, 0, 5);
    assert_eq!(g.origin, Some((30, 15)));
    assert_eq!(g.pointer_move(31, 16), Some(DragReport { phase: DragState::Move, dx: 1, dy: 1 }));
}

#[test]
fn release_while_idle_still_reports_end() {
    let mut h = mounted_hook();
    assert_eq!(
        h.handle(PointerInput::Up { x: 7, y: 8 }),
        Some(DragReport { phase: DragState::End, dx: 7, dy: 8 })
    );
}

#[test]
fn extreme_coordinates_do_not_overflow() {
    let mut g = Gesture::new();
    g.pointer_down(i32::MAX, i32::MIN, i32::MIN, i32::MAX);
    assert_eq!(g.origin, Some((4294967295, -4294967295)));
    assert_eq!(
        g.pointer_move(i32::MIN, i32::MAX),
        Some(DragReport { phase: DragState::Move, dx: -6442450943, dy: 6442450942 })
    );
    assert_eq!(relative_origin(-5, 3, 10, -10), (-15, 13));
    assert_eq!(delta(0, 0, -4294967296, 4294967296), (4294967296, -4294967296));
}

#[test]
fn destroy_while_dragging_detaches_all_and_silences() {
    let mut h = mounted_hook();
    let _ = h.handle(PointerInput::Down { x: 50, y: 50, left: 10, top: 10 });
    let torn = h.destroy();
    let (el, handlers) = torn.unwrap();
    assert_eq!(el, "el");
    assert_eq!(
        handlers,
        vec![(EventKind::PointerDown, 1), (EventKind::PointerMove, 2), (EventKind::PointerUp, 3)]
    );
    assert!(!h.dragging());
    assert!(!h.listening());
    assert!(h.element().is_none());
    assert_eq!(h.handle(PointerInput::Move { x: 90, y: 80 }), None);
    assert_eq!(h.handle(PointerInput::Up { x: 200, y: 300 }), None);
    assert_eq!(h.handle(PointerInput::Down { x: 1, y: 1, left: 0, top: 0 }), None);
    assert!(!h.dragging());
}

#[test]
fn destroy_twice_unregisters_once() {
    let mut h = mounted_hook();
    assert!(h.destroy().is_some());
    assert!(h.destroy().is_none());
}

#[test]
fn destroy_when_never_mounted_is_a_no_op() {
    let mut h: DragHook<&'static str, u32> = DragHook::new();
    assert!(h.destroy().is_none());
    assert!(h.destroy().is_none());
}

#[test]
fn destroy_before_attach_returns_element_only() {
    let mut h: DragHook<&'static str, u32> = DragHook::new();
    assert!(h.mount("el"));
    let (el, handlers) = h.destroy().unwrap();
    assert_eq!(el, "el");
    assert!(handlers.is_empty());
}

#[test]
fn second_mount_keeps_single_listener_set() {
    let mut h = mounted_hook();
    assert!(!h.mount("other"));
    assert!(!h.attach(10, 20, 30));
    assert_eq!(h.element(), Some(&"el"));
    assert_eq!(h.listener(EventKind::PointerDown), Some(&1));
    assert_eq!(h.listener(EventKind::PointerMove), Some(&2));
    assert_eq!(h.listener(EventKind::PointerUp), Some(&3));
    let (_, handlers) = h.destroy().unwrap();
    assert_eq!(handlers.len(), 3);
}

#[test]
fn remount_before_attach_replaces_element() {
    let mut h: DragHook<&'static str, u32> = DragHook::new();
    assert!(h.mount("a"));
    assert!(h.mount("b"));
    assert_eq!(h.element(), Some(&"b"));
    assert!(h.attach(1, 2, 3));
    assert!(h.listening());
}

#[test]
fn attach_without_element_is_refused() {
    let mut h: DragHook<&'static str, u32> = DragHook::new();
    assert!(!h.attach(1, 2, 3));
    assert!(!h.listening());
    assert_eq!(h.listener(EventKind::PointerUp), None);
}

#[test]
fn events_before_attach_are_ignored() {
    let mut h: DragHook<&'static str, u32> = DragHook::new();
    assert!(h.mount("el"));
    assert_eq!(h.handle(PointerInput::Down { x: 5, y: 5, left: 0, top: 0 }), None);
    assert!(!h.dragging());
    assert_eq!(h.handle(PointerInput::Up { x: 5, y: 5 }), None);
}

#[test]
fn event_kind_names() {
    assert_eq!(EventKind::PointerDown.name(), "pointerdown");
    assert_eq!(EventKind::PointerMove.name(), "pointermove");
    assert_eq!(EventKind::PointerUp.name(), "pointerup");
    assert_eq!(PointerInput::Move { x: 0, y: 0 }.kind(), EventKind::PointerMove);
    assert_eq!(PointerInput::Up { x: 0, y: 0 }.kind(), EventKind::PointerUp);
    assert_eq!(PointerInput::Down { x: 0, y: 0, left: 0, top: 0 }.kind(), EventKind::PointerDown);
}

#[test]
fn listener_set_attach_and_detach() {
    let mut s: ListenerSet<u32> = ListenerSet::new();
    assert!(!s.is_live(EventKind::PointerMove));
    s.attach(EventKind::PointerMove, 9);
    assert!(s.is_live(EventKind::PointerMove));
    assert!(!s.is_live(EventKind::PointerDown));
    assert_eq!(s.get(EventKind::PointerMove), Some(&9));
    assert_eq!(s.detach(EventKind::PointerMove), Some(9));
    assert_eq!(s.detach(EventKind::PointerMove), None);
    assert!(!s.is_live(EventKind::PointerMove));
}
