use vstd::prelude::*;

verus! {

/// A point in the logical scene space: origin at the visual centre, `y` growing upward.
#[derive(Clone, Copy, Debug, PartialEq, Eq)]
pub struct Point2 {
    pub x: i32,
    pub y: i32,
}

/// Where a logical point lands in a `width` x `height` buffer (origin top-left,
/// `y` growing downward), or `None` when it falls outside the buffer.
pub open spec fn map_point(x: int, y: int, width: int, height: int) -> Option<(int, int)> {
    let sx = x + width / 2;
    let sy = height / 2 - y;
    if sx < 0 || sy < 0 || sx >= width || sy >= height {
        None
    } else {
        Some((sx, sy))
    }
}

/// The integer view of a mapped coordinate pair.
pub open spec fn coords_view(r: Option<(i32, i32)>) -> Option<(int, int)> {
    match r {
        Some((a, b)) => Some((a as int, b as int)),
        None => None,
    }
}

/// Converts a logical point into buffer coordinates, rejecting points that
/// land outside `[0, screen_width) x [0, screen_height)`. Points exactly on the
/// far edge are rejected, never clamped.
pub fn screen_fixing(screen_width: usize, screen_height: usize, point: Point2) -> (r: Option<(i32, i32)>)
    requires
        screen_width <= i32::MAX,
        screen_height <= i32::MAX,
    ensures
        coords_view(r) == map_point(point.x as int, point.y as int, screen_width as int, screen_height as int),
{
    let w: i64 = screen_width as i64;
    let h: i64 = screen_height as i64;
    let sx: i64 = point.x as i64 + w / 2;
    let sy: i64 = h / 2 - point.y as i64;
    if sx < 0 || sy < 0 || sx >= w || sy >= h {
        None
    } else {
        Some((sx as i32, sy as i32))
    }
}

/// Mapping is pure: two calls of `screen_fixing` with the same point and
/// buffer size (any size it accepts) return the same result, and that result
/// depends on nothing but those arguments.
pub proof fn lemma_mapping_pure(
    r1: Option<(i32, i32)>,
    r2: Option<(i32, i32)>,
    point: Point2,
    width: usize,
    height: usize,
)
    requires
        width <= i32::MAX,
        height <= i32::MAX,
        coords_view(r1) == map_point(point.x as int, point.y as int, width as int, height as int),
        coords_view(r2) == map_point(point.x as int, point.y as int, width as int, height as int),
    ensures
        r1 == r2,
        coords_view(r1) == map_point(point.x as int, point.y as int, width as int, height as int),
{
    match (r1, r2) {
        (Some((a1, b1)), Some((a2, b2))) => {
            assert(a1 as int == a2 as int && b1 as int == b2 as int);
        },
        _ => {},
    }
}

} // verus!
