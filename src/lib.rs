//! A drag-gesture primitive: a pointer state machine that turns
//! pointer-down/move/up events on one element into `Move` offsets and an
//! `End` position, bound to the element's mount and destroy lifecycle with
//! exactly one listener per event kind.

pub mod geometry;
pub mod gesture;
pub mod hook;
pub mod listeners;

pub use gesture::{DragReport, DragState, Gesture, PointerInput};
pub use hook::DragHook;
pub use listeners::{EventKind, ListenerSet};
