//! Points and triangles on the integer lattice of a canvas, and the
//! subdivision of a triangle into its three corner triangles.
//!
//! Coordinates are whole numbers of a unit that the caller chooses (a pixel,
//! or a binary fraction of one). `x` grows to the right and `y` grows
//! downwards. A quarter of a width is rounded toward zero; it is exact
//! whenever the width is a multiple of four units.

use vstd::prelude::*;

verus! {

/// A point of the canvas lattice.
#[derive(Clone, Copy, Debug, PartialEq, Eq, Structural)]
pub struct Point {
    pub x: i64,
    pub y: i64,
}

/// The mathematical point that a [`Point`] stands for.
pub struct PointView {
    pub x: int,
    pub y: int,
}

impl View for Point {
    type V = PointView;

    open spec fn view(&self) -> PointView {
        PointView { x: self.x as int, y: self.y as int }
    }
}

impl PointView {
    /// The point with both coordinates multiplied by `k`.
    pub open spec fn scaled(self, k: int) -> PointView {
        PointView { x: self.x * k, y: self.y * k }
    }

    /// Whether both coordinates are `i64` values.
    pub open spec fn fits(self) -> bool {
        i64::MIN <= self.x <= i64::MAX && i64::MIN <= self.y <= i64::MAX
    }
}

/// Three points, labelled apex, left end of the base and right end of the
/// base. The labels steer the subdivision; nothing asks that the points
/// really lie that way, or that they span any area.
#[derive(Clone, Copy, Debug, PartialEq, Eq, Structural)]
pub struct Triangle {
    pub top: Point,
    pub left: Point,
    pub right: Point,
}

/// The mathematical triangle that a [`Triangle`] stands for.
pub struct TriangleView {
    pub top: PointView,
    pub left: PointView,
    pub right: PointView,
}

impl View for Triangle {
    type V = TriangleView;

    open spec fn view(&self) -> TriangleView {
        TriangleView { top: self.top@, left: self.left@, right: self.right@ }
    }
}

/// The three corner triangles of one subdivision.
#[derive(Clone, Copy, Debug, PartialEq, Eq, Structural)]
pub struct Corners {
    pub bottom_left: Triangle,
    pub bottom_right: Triangle,
    pub top: Triangle,
}

impl TriangleView {
    /// The triangle with every coordinate multiplied by `k`.
    pub open spec fn scaled(self, k: int) -> TriangleView {
        TriangleView {
            top: self.top.scaled(k),
            left: self.left.scaled(k),
            right: self.right.scaled(k),
        }
    }

    /// Whether all six coordinates are `i64` values.
    pub open spec fn fits(self) -> bool {
        self.top.fits() && self.left.fits() && self.right.fits()
    }

    /// Signed width of the base: positive when `right` lies to the right of
    /// `left`.
    pub open spec fn width(self) -> int {
        self.right.x - self.left.x
    }

    /// A quarter of the width, rounded toward zero.
    pub open spec fn quarter(self) -> int {
        if self.width() >= 0 {
            self.width() / 4
        } else {
            -((-self.width()) / 4)
        }
    }

    /// Twice the quarter: half of the width, up to rounding.
    pub open spec fn half(self) -> int {
        2 * self.quarter()
    }

    /// The point a quarter in from the left end, half a width below the apex.
    pub open spec fn mid_left(self) -> PointView {
        PointView { x: self.left.x + self.quarter(), y: self.top.y + self.half() }
    }

    /// The point a quarter in from the right end, half a width below the apex.
    pub open spec fn mid_right(self) -> PointView {
        PointView { x: self.right.x - self.quarter(), y: self.top.y + self.half() }
    }

    /// The point half a width right of the left end, at the left end's height.
    pub open spec fn mid_bottom(self) -> PointView {
        PointView { x: self.left.x + self.half(), y: self.left.y }
    }

    /// The corner triangle at the left end of the base.
    pub open spec fn bottom_left(self) -> TriangleView {
        TriangleView { top: self.mid_left(), left: self.left, right: self.mid_bottom() }
    }

    /// The corner triangle at the right end of the base.
    pub open spec fn bottom_right(self) -> TriangleView {
        TriangleView { top: self.mid_right(), left: self.mid_bottom(), right: self.right }
    }

    /// The corner triangle at the apex.
    pub open spec fn top_corner(self) -> TriangleView {
        TriangleView { top: self.top, left: self.mid_left(), right: self.mid_right() }
    }

    /// The middle triangle that no corner covers and that is never drawn. It
    /// stands on its tip, `mid_bottom`, and is listed so that it turns the
    /// same way round as the three corners do.
    pub open spec fn gap(self) -> TriangleView {
        TriangleView { top: self.mid_bottom(), left: self.mid_right(), right: self.mid_left() }
    }

    /// Whether the lowest row that a subdivision can reach, one width below
    /// the apex, still has an `i64` coordinate. Every corner of a triangle
    /// that is in range is in range again, so this one bound keeps a whole
    /// recursive drawing free of overflow.
    pub open spec fn in_range(self) -> bool {
        i64::MIN <= self.top.y + self.width() <= i64::MAX
    }

    /// Twice the signed area, by the shoelace formula. It is positive when
    /// `left` is on the left and the base lies below the apex on the screen,
    /// negative for the mirror image, and zero for three points in a line.
    pub open spec fn twice_signed_area(self) -> int {
        (self.right.x - self.top.x) * (self.left.y - self.top.y) - (self.left.x - self.top.x) * (
        self.right.y - self.top.y)
    }

    /// Twice the area.
    pub open spec fn twice_area(self) -> int {
        if self.twice_signed_area() >= 0 {
            self.twice_signed_area()
        } else {
            -self.twice_signed_area()
        }
    }

    /// Twice the signed area of the three corners and the gap together.
    pub open spec fn twice_signed_area_of_parts(self) -> int {
        self.bottom_left().twice_signed_area() + self.bottom_right().twice_signed_area()
            + self.top_corner().twice_signed_area() + self.gap().twice_signed_area()
    }

    /// Twice the area of the three corners and the gap together.
    pub open spec fn twice_area_of_parts(self) -> int {
        self.bottom_left().twice_area() + self.bottom_right().twice_area()
            + self.top_corner().twice_area() + self.gap().twice_area()
    }

    /// By how much twice the signed area of the parts exceeds that of the
    /// whole. With `height` the drop from the apex to the left end and `rise`
    /// the drop from the left end to the right end, it is
    /// `width * height - half * (width + height)`, plus
    /// `rise * (right.x - top.x - 3 * quarter)` for a base that is not level.
    pub open spec fn partition_surplus(self) -> int {
        let height = self.left.y - self.top.y;
        let rise = self.right.y - self.left.y;
        self.width() * height - self.half() * (self.width() + height) + rise * (self.right.x
            - self.top.x - 3 * self.quarter())
    }

    /// Whether the base is level, its width a multiple of four units, and the
    /// apex exactly one width above it: the shape for which the subdivision
    /// was made. The apex may stand anywhere along its row.
    pub open spec fn is_upright(self) -> bool {
        &&& self.left.y == self.right.y
        &&& self.left.y - self.top.y == self.width()
        &&& self.width() % 4 == 0
    }
}

impl Triangle {
    /// Tells whether the triangle is in range, see [`TriangleView::in_range`].
    pub fn is_in_range(&self) -> (ok: bool)
        ensures
            ok == self@.in_range(),
    {
        let reach: i128 = self.top.y as i128 + (self.right.x as i128 - self.left.x as i128);
        i64::MIN as i128 <= reach && reach <= i64::MAX as i128
    }
}

/// The quarter and the half are no longer than the width and point the same
/// way, so every midpoint lies between the ends of the base and at most one
/// width below the apex.
pub proof fn lemma_quarter_bounds(t: TriangleView)
    ensures
        t.width() >= 0 ==> 0 <= t.quarter() && 4 * t.quarter() <= t.width() < 4 * t.quarter() + 4,
        t.width() <= 0 ==> t.quarter() <= 0 && 4 * t.quarter() - 4 < t.width() <= 4 * t.quarter(),
        t.width() % 4 == 0 ==> 4 * t.quarter() == t.width(),
{
}

/// Where the width is a multiple of four units nothing is rounded, and the
/// midpoints are the ones that the subdivision has over the rationals:
/// `left.x + width / 4`, `right.x - width / 4` and `left.x + width / 2`, on
/// the row `top.y + width / 2`.
pub proof fn lemma_exact_midpoints(t: TriangleView)
    requires
        t.width() % 4 == 0,
    ensures
        4 * t.mid_left().x == 3 * t.left.x + t.right.x,
        4 * t.mid_right().x == t.left.x + 3 * t.right.x,
        2 * t.mid_bottom().x == t.left.x + t.right.x,
        2 * (t.mid_left().y - t.top.y) == t.width(),
        t.mid_right().y == t.mid_left().y,
        t.mid_bottom().y == t.left.y,
{
}

/// Every corner of a triangle in range is in range, and so is the row of the
/// two upper midpoints.
pub proof fn lemma_corners_in_range(t: TriangleView)
    requires
        t.in_range(),
        i64::MIN <= t.top.y <= i64::MAX,
    ensures
        i64::MIN <= t.top.y + t.half() <= i64::MAX,
        t.bottom_left().in_range(),
        t.bottom_right().in_range(),
        t.top_corner().in_range(),
{
    lemma_quarter_bounds(t);
}

/// The midpoints are computed from the width of the base and the apex's row
/// alone, so the three corners and the gap need not fill the triangle. For
/// every triangle, their signed areas add up to that of the whole plus
/// `partition_surplus`: the parts make up the whole exactly when the surplus
/// is zero.
pub proof fn lemma_area_of_parts(t: TriangleView)
    ensures
        t.twice_signed_area_of_parts() == t.twice_signed_area() + t.partition_surplus(),
        t.twice_signed_area_of_parts() == t.twice_signed_area() <==> t.partition_surplus() == 0,
{
    let q = t.quarter();
    let w = t.width();
    let height = t.left.y - t.top.y;
    let drop = t.right.y - t.top.y;
    let lead = t.left.x - t.top.x;
    let bl = t.bottom_left().twice_signed_area();
    let br = t.bottom_right().twice_signed_area();
    let tc = t.top_corner().twice_signed_area();
    let gp = t.gap().twice_signed_area();
    let whole = t.twice_signed_area();
    let surplus = t.partition_surplus();
    let qq = q * q;
    let qw = q * w;
    let qh = q * height;
    let qd = q * drop;
    let wh = w * height;
    let wd = w * drop;
    let lh = lead * height;
    let ld = lead * drop;
    assert(bl == 2 * qh - 4 * qq) by (nonlinear_arith)
        requires
            bl == (2 * q - q) * (height - 2 * q) - (0 - q) * (height - 2 * q),
            qh == q * height,
            qq == q * q,
    ;
    assert(br == qh + 4 * qq - 3 * qd + wd - 2 * qw) by (nonlinear_arith)
        requires
            br == q * (height - 2 * q) - (3 * q - w) * (drop - 2 * q),
            qh == q * height,
            qq == q * q,
            qd == q * drop,
            wd == w * drop,
            qw == q * w,
    ;
    assert(tc == 2 * qw - 4 * qq) by (nonlinear_arith)
        requires
            tc == (lead + w - q) * (2 * q) - (lead + q) * (2 * q),
            qw == q * w,
            qq == q * q,
    ;
    assert(gp == 4 * qq - 2 * qw - 2 * qh + wh) by (nonlinear_arith)
        requires
            gp == (q - 2 * q) * (2 * q - height) - (w - q - 2 * q) * (2 * q - height),
            qq == q * q,
            qw == q * w,
            qh == q * height,
            wh == w * height,
    ;
    assert(whole == lh + wh - ld) by (nonlinear_arith)
        requires
            whole == (lead + w) * height - lead * drop,
            lh == lead * height,
            wh == w * height,
            ld == lead * drop,
    ;
    assert(surplus == qh - 2 * qw + ld + wd - 3 * qd - lh) by (nonlinear_arith)
        requires
            surplus == w * height - (2 * q) * (w + height) + (drop - height) * (lead + w - 3 * q),
            qh == q * height,
            qw == q * w,
            ld == lead * drop,
            wd == w * drop,
            qd == q * drop,
            lh == lead * height,
            wh == w * height,
    ;
}

/// A triangle with a level base whose width is a multiple of four units is
/// made up of its parts exactly when it has no width at all or is as high as
/// it is wide.
pub proof fn lemma_level_partition(t: TriangleView)
    requires
        t.left.y == t.right.y,
        t.width() % 4 == 0,
    ensures
        t.twice_signed_area_of_parts() == t.twice_signed_area() <==> (t.width() == 0 || t.left.y
            - t.top.y == t.width()),
{
    lemma_area_of_parts(t);
    let q = t.quarter();
    let height = t.left.y - t.top.y;
    assert(t.partition_surplus() == 2 * q * (height - 4 * q)) by (nonlinear_arith)
        requires
            t.partition_surplus() == (4 * q) * height - (2 * q) * ((4 * q) + height) + 0 * (
            t.right.x - t.top.x - 3 * q),
    ;
    assert(2 * q * (height - 4 * q) == 0 <==> (q == 0 || height == 4 * q)) by (nonlinear_arith);
}

/// The classic relation: each corner of an upright triangle, and the gap, has
/// a quarter of its area, and the four together have all of it.
pub proof fn lemma_upright_partition(t: TriangleView)
    requires
        t.is_upright(),
    ensures
        4 * t.bottom_left().twice_area() == t.twice_area(),
        4 * t.bottom_right().twice_area() == t.twice_area(),
        4 * t.top_corner().twice_area() == t.twice_area(),
        4 * t.gap().twice_area() == t.twice_area(),
        t.twice_area_of_parts() == t.twice_area(),
{
    let q = t.quarter();
    let w = t.width();
    let tx = t.top.x;
    let ty = t.top.y;
    let lx = t.left.x;
    let ly = t.left.y;
    assert(w == 4 * q);
    assert(ly == ty + 4 * q);
    assert(t.twice_signed_area() == 16 * (q * q)) by (nonlinear_arith)
        requires
            t.twice_signed_area() == (lx + 4 * q - tx) * (4 * q) - (lx - tx) * (4 * q),
    ;
    assert(t.bottom_left().twice_signed_area() == 4 * (q * q)) by (nonlinear_arith)
        requires
            t.bottom_left().twice_signed_area() == (lx + 2 * q - (lx + q)) * (ty + 4 * q - (ty + 2
                * q)) - (lx - (lx + q)) * (ty + 4 * q - (ty + 2 * q)),
    ;
    assert(t.bottom_right().twice_signed_area() == 4 * (q * q)) by (nonlinear_arith)
        requires
            t.bottom_right().twice_signed_area() == (lx + 4 * q - (lx + 4 * q - q)) * (ty + 4 * q
                - (ty + 2 * q)) - (lx + 2 * q - (lx + 4 * q - q)) * (ty + 4 * q - (ty + 2 * q)),
    ;
    assert(t.top_corner().twice_signed_area() == 4 * (q * q)) by (nonlinear_arith)
        requires
            t.top_corner().twice_signed_area() == (lx + 4 * q - q - tx) * (ty + 2 * q - ty) - (lx
                + q - tx) * (ty + 2 * q - ty),
    ;
    assert(t.gap().twice_signed_area() == 4 * (q * q)) by (nonlinear_arith)
        requires
            t.gap().twice_signed_area() == (lx + q - (lx + 2 * q)) * (ty + 2 * q - (ty + 4 * q))
                - (lx + 4 * q - q - (lx + 2 * q)) * (ty + 2 * q - (ty + 4 * q)),
    ;
    assert(q * q >= 0) by (nonlinear_arith);
}

/// Each corner of an upright triangle has half its width and, where the width
/// is a multiple of eight units, is upright again, so that the classic
/// relation holds of it in turn.
pub proof fn lemma_upright_corners(t: TriangleView)
    requires
        t.is_upright(),
    ensures
        2 * t.bottom_left().width() == t.width(),
        2 * t.bottom_right().width() == t.width(),
        2 * t.top_corner().width() == t.width(),
        t.width() % 8 == 0 ==> t.bottom_left().is_upright() && t.bottom_right().is_upright()
            && t.top_corner().is_upright(),
{
}

/// Splits a triangle into its three corner triangles.
///
/// With `quarter` a quarter of the base width, rounded toward zero, and
/// `half` twice that, the corners are spanned by the three given points and
/// by `(left.x + quarter, top.y + half)`, `(right.x - quarter, top.y + half)`
/// and `(left.x + half, left.y)`.
pub fn subdivide(t: Triangle) -> (corners: Corners)
    requires
        i64::MIN <= t@.top.y + t@.half() <= i64::MAX,
    ensures
        corners.bottom_left@ == t@.bottom_left(),
        corners.bottom_right@ == t@.bottom_right(),
        corners.top@ == t@.top_corner(),
{
    proof {
        lemma_quarter_bounds(t@);
    }
    let width: i128 = t.right.x as i128 - t.left.x as i128;
    let quarter: i128 = width / 4;
    let half: i128 = quarter * 2;
    let row: i64 = (t.top.y as i128 + half) as i64;
    let mid_left = Point { x: (t.left.x as i128 + quarter) as i64, y: row };
    let mid_right = Point { x: (t.right.x as i128 - quarter) as i64, y: row };
    let mid_bottom = Point { x: (t.left.x as i128 + half) as i64, y: t.left.y };
    Corners {
        bottom_left: Triangle { top: mid_left, left: t.left, right: mid_bottom },
        bottom_right: Triangle { top: mid_right, left: mid_bottom, right: t.right },
        top: Triangle { top: t.top, left: mid_left, right: mid_right },
    }
}

} // verus!
