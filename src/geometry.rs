use vstd::prelude::*;

verus! {

/// The smaller of two integers.
pub open spec fn min_int(a: int, b: int) -> int {
    if a <= b { a } else { b }
}

/// The larger of two integers.
pub open spec fn max_int(a: int, b: int) -> int {
    if a >= b { a } else { b }
}

/// A point, or a displacement, in the plane.
#[derive(Clone, Copy, Debug, PartialEq, Eq, Structural)]
pub struct Point {
    pub x: i64,
    pub y: i64,
}

impl Point {
    pub fn new(x: i64, y: i64) -> (r: Point)
        ensures
            r.x == x,
            r.y == y,
    {
        Point { x, y }
    }
}

/// An axis-aligned rectangle given by its lower-left and upper-right corners.
#[derive(Clone, Copy, Debug, PartialEq, Eq, Structural)]
pub struct Rect {
    pub min: Point,
    pub max: Point,
}

/// The rectangle spanned by two opposite corners, in either order.
pub open spec fn corners_rect(x0: int, y0: int, x1: int, y1: int) -> (int, int, int, int) {
    (min_int(x0, x1), min_int(y0, y1), max_int(x0, x1), max_int(y0, y1))
}

/// Whether the rectangles `(ax0, ay0)-(ax1, ay1)` and `(bx0, by0)-(bx1, by1)`
/// share an area: touching edges do not count.
pub open spec fn overlap(
    ax0: int, ay0: int, ax1: int, ay1: int,
    bx0: int, by0: int, bx1: int, by1: int,
) -> bool {
    max_int(ax0, bx0) < min_int(ax1, bx1) && max_int(ay0, by0) < min_int(ay1, by1)
}

fn min_i64(a: i64, b: i64) -> (r: i64)
    ensures
        r == min_int(a as int, b as int),
{
    if a <= b { a } else { b }
}

fn max_i64(a: i64, b: i64) -> (r: i64)
    ensures
        r == max_int(a as int, b as int),
{
    if a >= b { a } else { b }
}

impl Rect {
    /// The view of a rectangle as `(min x, min y, max x, max y)`.
    pub open spec fn view(self) -> (int, int, int, int) {
        (self.min.x as int, self.min.y as int, self.max.x as int, self.max.y as int)
    }

    /// Its corners are ordered.
    pub open spec fn wf(self) -> bool {
        self.min.x <= self.max.x && self.min.y <= self.max.y
    }

    /// The rectangle has no area.
    pub open spec fn empty(self) -> bool {
        self.min.x >= self.max.x || self.min.y >= self.max.y
    }

    /// The rectangle with corners `p0` and `p1`, in either order.
    pub fn from_corners(p0: Point, p1: Point) -> (r: Rect)
        ensures
            r@ == corners_rect(p0.x as int, p0.y as int, p1.x as int, p1.y as int),
            r.wf(),
    {
        Rect {
            min: Point { x: min_i64(p0.x, p1.x), y: min_i64(p0.y, p1.y) },
            max: Point { x: max_i64(p0.x, p1.x), y: max_i64(p0.y, p1.y) },
        }
    }

    /// The rectangle with corners `(x0, y0)` and `(x1, y1)`, in either order.
    pub fn new(x0: i64, y0: i64, x1: i64, y1: i64) -> (r: Rect)
        ensures
            r@ == corners_rect(x0 as int, y0 as int, x1 as int, y1 as int),
            r.wf(),
    {
        Rect::from_corners(Point { x: x0, y: y0 }, Point { x: x1, y: y1 })
    }

    /// The rectangle of the given size centred on the origin; odd sizes leave
    /// the extra unit on the positive side.
    pub open spec fn centered_spec(width: u64, height: u64) -> Rect {
        Rect {
            min: Point { x: -(width / 2) as i64, y: -(height / 2) as i64 },
            max: Point { x: (width - width / 2) as i64, y: (height - height / 2) as i64 },
        }
    }

    /// The rectangle of the given size centred on the origin.
    pub fn centered(width: u64, height: u64) -> (r: Rect)
        requires
            width <= i64::MAX,
            height <= i64::MAX,
        ensures
            r == Rect::centered_spec(width, height),
            r@ == (
                -(width / 2) as int,
                -(height / 2) as int,
                width - width / 2,
                height - height / 2,
            ),
            r.wf(),
    {
        let hw = (width / 2) as i64;
        let hh = (height / 2) as i64;
        Rect {
            min: Point { x: -hw, y: -hh },
            max: Point { x: (width - width / 2) as i64, y: (height - height / 2) as i64 },
        }
    }

    /// The part shared by both rectangles; where they do not overlap, the
    /// result is empty.
    pub fn intersect(&self, other: &Rect) -> (r: Rect)
        ensures
            r.max.x == min_int(self.max.x as int, other.max.x as int),
            r.max.y == min_int(self.max.y as int, other.max.y as int),
            r.min.x == min_int(max_int(self.min.x as int, other.min.x as int), r.max.x as int),
            r.min.y == min_int(max_int(self.min.y as int, other.min.y as int), r.max.y as int),
            r.wf(),
            r.empty() <==> !overlap(
                self.min.x as int, self.min.y as int, self.max.x as int, self.max.y as int,
                other.min.x as int, other.min.y as int, other.max.x as int, other.max.y as int,
            ),
    {
        let max = Point { x: min_i64(self.max.x, other.max.x), y: min_i64(self.max.y, other.max.y) };
        let lo = Point { x: max_i64(self.min.x, other.min.x), y: max_i64(self.min.y, other.min.y) };
        Rect { min: Point { x: min_i64(lo.x, max.x), y: min_i64(lo.y, max.y) }, max }
    }

    /// Whether the rectangle has no area.
    pub fn is_empty(&self) -> (r: bool)
        ensures
            r == self.empty(),
    {
        self.min.x >= self.max.x || self.min.y >= self.max.y
    }
}

} // verus!
