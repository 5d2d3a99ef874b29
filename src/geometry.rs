//! Points, axis-aligned bounding boxes and polygon areas of contours.
use vstd::arithmetic::div_mod::lemma_small_mod;
use vstd::prelude::*;

verus! {

/// A pixel position in a frame.
#[derive(Debug, Clone, Copy, PartialEq, Eq, Structural)]
pub struct Point {
    pub x: i32,
    pub y: i32,
}

/// An axis-aligned rectangle: `x`, `y` is its top-left corner.
#[derive(Debug, Clone, Copy, PartialEq, Eq, Structural)]
pub struct BoundingBox {
    pub x: i64,
    pub y: i64,
    pub width: u64,
    pub height: u64,
}

/// The coordinate of `p` along one axis.
pub open spec fn coord(p: Point, vertical: bool) -> int {
    if vertical {
        p.y as int
    } else {
        p.x as int
    }
}

/// Smallest coordinate along an axis over a non-empty sequence of points.
pub open spec fn min_coord(pts: Seq<Point>, vertical: bool) -> int
    decreases pts.len(),
{
    if pts.len() <= 1 {
        if pts.len() == 1 {
            coord(pts[0], vertical)
        } else {
            0
        }
    } else {
        let rest = min_coord(pts.drop_last(), vertical);
        let c = coord(pts.last(), vertical);
        if c < rest {
            c
        } else {
            rest
        }
    }
}

/// Largest coordinate along an axis over a non-empty sequence of points.
pub open spec fn max_coord(pts: Seq<Point>, vertical: bool) -> int
    decreases pts.len(),
{
    if pts.len() <= 1 {
        if pts.len() == 1 {
            coord(pts[0], vertical)
        } else {
            0
        }
    } else {
        let rest = max_coord(pts.drop_last(), vertical);
        let c = coord(pts.last(), vertical);
        if c > rest {
            c
        } else {
            rest
        }
    }
}

/// `b` is the smallest axis-aligned rectangle holding every point of `pts`
/// (a box of width one holds a single column of pixels).
pub open spec fn is_bounding_box_of(b: BoundingBox, pts: Seq<Point>) -> bool {
    &&& b.x == min_coord(pts, false)
    &&& b.y == min_coord(pts, true)
    &&& b.width == max_coord(pts, false) - min_coord(pts, false) + 1
    &&& b.height == max_coord(pts, true) - min_coord(pts, true) + 1
}

/// The left edge of a contour's bounding box.
pub open spec fn left_edge(pts: Seq<Point>) -> int {
    min_coord(pts, false)
}

/// Cross product of two consecutive polygon vertices.
pub open spec fn cross(p: Point, q: Point) -> int {
    (p.x as int) * (q.y as int) - (q.x as int) * (p.y as int)
}

/// Sum of the cross products of the first `k` edges of the closed polygon `pts`.
pub open spec fn shoelace_sum(pts: Seq<Point>, k: int) -> int
    decreases k,
{
    if k <= 0 {
        0
    } else {
        shoelace_sum(pts, k - 1) + cross(pts[k - 1], pts[k % (pts.len() as int)])
    }
}

/// Twice the enclosed area of the closed polygon `pts`, by the shoelace formula.
pub open spec fn twice_area(pts: Seq<Point>) -> int {
    let s = shoelace_sum(pts, pts.len() as int);
    if s < 0 {
        -s
    } else {
        s
    }
}

proof fn lemma_min_max_step(pts: Seq<Point>, i: int, vertical: bool)
    requires
        1 <= i < pts.len(),
    ensures
        pts.subrange(0, i + 1).drop_last() == pts.subrange(0, i),
        pts.subrange(0, i + 1).last() == pts[i],
{
    assert(pts.subrange(0, i + 1).drop_last() =~= pts.subrange(0, i));
}

/// The smallest rectangle that holds every point, or `None` for no points.
pub fn bounding_rect(points: &Vec<Point>) -> (r: Option<BoundingBox>)
    ensures
        points@.len() == 0 <==> r.is_none(),
        r.is_some() ==> is_bounding_box_of(r.unwrap(), points@),
{
    if points.len() == 0 {
        return None;
    }
    let mut x0: i32 = points[0].x;
    let mut x1: i32 = points[0].x;
    let mut y0: i32 = points[0].y;
    let mut y1: i32 = points[0].y;
    let mut i: usize = 1;
    assert(points@.subrange(0, 1) =~= seq![points@[0]]);
    while i < points.len()
        invariant
            1 <= i <= points@.len(),
            x0 == min_coord(points@.subrange(0, i as int), false),
            x1 == max_coord(points@.subrange(0, i as int), false),
            y0 == min_coord(points@.subrange(0, i as int), true),
            y1 == max_coord(points@.subrange(0, i as int), true),
        decreases points@.len() - i,
    {
        let p = points[i];
        proof {
            lemma_min_max_step(points@, i as int, false);
        }
        if p.x < x0 {
            x0 = p.x;
        }
        if p.x > x1 {
            x1 = p.x;
        }
        if p.y < y0 {
            y0 = p.y;
        }
        if p.y > y1 {
            y1 = p.y;
        }
        i = i + 1;
    }
    assert(points@.subrange(0, points@.len() as int) =~= points@);
    Some(
        BoundingBox {
            x: x0 as i64,
            y: y0 as i64,
            width: (x1 as i64 - x0 as i64 + 1) as u64,
            height: (y1 as i64 - y0 as i64 + 1) as u64,
        },
    )
}

proof fn lemma_cross_bound(p: Point, q: Point)
    ensures
        -0x4000_0000_0000_0000 <= (p.x as int) * (q.y as int) <= 0x4000_0000_0000_0000,
        -0x4000_0000_0000_0000 <= (q.x as int) * (p.y as int) <= 0x4000_0000_0000_0000,
        -0x8000_0000_0000_0000 <= cross(p, q) <= 0x8000_0000_0000_0000,
{
    let (a, b, c, d) = (p.x as int, q.y as int, q.x as int, p.y as int);
    assert(-0x4000_0000_0000_0000 <= a * b <= 0x4000_0000_0000_0000) by (nonlinear_arith)
        requires
            -0x8000_0000 <= a <= 0x7fff_ffff,
            -0x8000_0000 <= b <= 0x7fff_ffff,
    ;
    assert(-0x4000_0000_0000_0000 <= c * d <= 0x4000_0000_0000_0000) by (nonlinear_arith)
        requires
            -0x8000_0000 <= c <= 0x7fff_ffff,
            -0x8000_0000 <= d <= 0x7fff_ffff,
    ;
}

/// Twice the area enclosed by a contour, read as a closed polygon
/// (the last point joins the first). Fewer than three points enclose nothing.
pub fn contour_twice_area(points: &Vec<Point>) -> (r: u128)
    ensures
        r == twice_area(points@),
{
    let n = points.len();
    let mut acc: i128 = 0;
    let mut i: usize = 0;
    while i < n
        invariant
            n == points@.len(),
            0 <= i <= n,
            acc == shoelace_sum(points@, i as int),
            -(i as int) * 0x8000_0000_0000_0000 <= acc <= (i as int) * 0x8000_0000_0000_0000,
        decreases n - i,
    {
        let p = points[i];
        let next: usize = if i + 1 == n { 0 } else { i + 1 };
        let q = points[next];
        proof {
            lemma_cross_bound(p, q);
            if i + 1 == n {
                assert((n as int) % (n as int) == 0) by (nonlinear_arith)
                    requires
                        n > 0,
                ;
            } else {
                lemma_small_mod((i + 1) as nat, n as nat);
            }
        }
        let c: i128 = (p.x as i128) * (q.y as i128) - (q.x as i128) * (p.y as i128);
        acc = acc + c;
        i = i + 1;
    }
    if acc < 0 {
        (-acc) as u128
    } else {
        acc as u128
    }
}

} // verus!
