use vstd::prelude::*;

verus! {

/// Size of the rectangle with these edges: `right - left` by `bottom - top`,
/// negative for a degenerate rectangle; absent where a difference leaves `i32`.
pub open spec fn rect_size(left: int, top: int, right: int, bottom: int) -> Option<(i32, i32)> {
    let w = right - left;
    let h = bottom - top;
    if i32::MIN <= w <= i32::MAX && i32::MIN <= h <= i32::MAX {
        Some((w as i32, h as i32))
    } else {
        None
    }
}

/// Width and height of a bounding rectangle given by its edges.
pub fn element_size_from_rect(left: i32, top: i32, right: i32, bottom: i32) -> (r: Option<
    (i32, i32),
>)
    ensures
        r == rect_size(left as int, top as int, right as int, bottom as int),
{
    let w = (right as i64) - (left as i64);
    let h = (bottom as i64) - (top as i64);
    if i32::MIN as i64 <= w && w <= i32::MAX as i64 && i32::MIN as i64 <= h && h <= i32::MAX as i64 {
        Some((w as i32, h as i32))
    } else {
        None
    }
}

/// Finds the size of the user-interface element at a screen point.
///
/// Any answer is acceptable to the sampling loop: `None` stands for "unavailable",
/// whether the platform lacks the service or the query failed.
pub trait ElementInspector {
    fn element_size_at(&self, x: i32, y: i32) -> Option<(i32, i32)>;
}

/// The inspector of platforms without an accessibility service: never finds anything.
pub struct NoInspector;

impl ElementInspector for NoInspector {
    fn element_size_at(&self, x: i32, y: i32) -> (r: Option<(i32, i32)>)
        ensures
            r is None,
    {
        None
    }
}

} // verus!
