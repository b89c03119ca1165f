use vstd::prelude::*;

verus! {

/// Largest magnitude of a difference of two `i32` coordinates.
pub const SPAN: i64 = 0x1_0000_0000;

/// A coordinate that is the difference of two `i32` client coordinates.
pub open spec fn in_span(v: int) -> bool {
    -SPAN <= v <= SPAN
}

/// The pointer position expressed relative to the top-left corner of a box.
pub open spec fn spec_relative_origin(px: int, py: int, left: int, top: int) -> (int, int) {
    (px - left, py - top)
}

/// The offset of a point from a reference point.
pub open spec fn spec_delta(px: int, py: int, rx: int, ry: int) -> (int, int) {
    (px - rx, py - ry)
}

/// Pointer position `(px, py)` relative to a box whose top-left corner is
/// `(left, top)`, all in client coordinates.
pub fn relative_origin(px: i32, py: i32, left: i32, top: i32) -> (r: (i64, i64))
    ensures
        (r.0 as int, r.1 as int) == spec_relative_origin(px as int, py as int, left as int, top as int),
        in_span(r.0 as int),
        in_span(r.1 as int),
{
    (px as i64 - left as i64, py as i64 - top as i64)
}

/// Offset of the point `(px, py)` from the reference `(rx, ry)`.
pub fn delta(px: i32, py: i32, rx: i64, ry: i64) -> (r: (i64, i64))
    requires
        in_span(rx as int),
        in_span(ry as int),
    ensures
        (r.0 as int, r.1 as int) == spec_delta(px as int, py as int, rx as int, ry as int),
{
    (px as i64 - rx, py as i64 - ry)
}

} // verus!
