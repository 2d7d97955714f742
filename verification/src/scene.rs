//! What one run draws, and the scale of its lattice.
//!
//! A scene is laid out in lattice units. Laid out from pixel coordinates, it
//! takes `2^(depth + 2)` units to the pixel: fine enough that no quarter in
//! the whole drawing is rounded, so that the picture is the one that exact
//! arithmetic gives. Whoever carries the operations out divides by
//! `units_per_pixel`.

use crate::canvas::{fills, CanvasOp, CanvasOpView};
use crate::color::Color;
use crate::fractal::{
    draw_sierpinski, drawing, is_drawable, is_palette, lemma_in_range_is_drawable,
    lemma_quarters_evenly, quarters_evenly, sierpinski_triangles, total_fills,
};
use crate::geometry::{Point, PointView, Triangle, TriangleView};
use vstd::arithmetic::div_mod::lemma_mod_multiples_basic;
use vstd::arithmetic::power2::{
    lemma2_to64, lemma2_to64_rest, lemma_pow2_pos, lemma_pow2_strictly_increases,
    lemma_pow2_unfold, pow2,
};
use vstd::prelude::*;

verus! {

/// What to draw.
#[derive(Clone, Copy, Debug, PartialEq, Eq, Structural)]
pub struct Scene {
    /// Whether a loaded image is drawn under the fractal.
    pub sprite: bool,
    /// How many levels follow the first.
    pub depth: u8,
    /// The outermost triangle, in lattice units.
    pub triangle: Triangle,
    /// How many lattice units make one pixel.
    pub units_per_pixel: i64,
}

/// What is drawn before the fractal: the image at the origin where there is
/// one, else nothing.
pub open spec fn backdrop(sprite: bool) -> Seq<CanvasOpView> {
    if sprite {
        seq![CanvasOpView::DrawImage(PointView { x: 0, y: 0 })]
    } else {
        Seq::empty()
    }
}

/// Whether a triangle in pixels can be laid out for a drawing of the given
/// depth: the scale and the scaled coordinates are `i64` values, and the
/// scaled triangle is in range.
pub open spec fn can_lay_out(depth: u8, outline: TriangleView) -> bool {
    let units = pow2((depth + 2) as nat) as int;
    &&& units <= i64::MAX
    &&& outline.scaled(units).fits()
    &&& outline.scaled(units).in_range()
}

fn units_for(depth: u8) -> (units: Option<i64>)
    ensures
        units is Some <==> pow2((depth + 2) as nat) <= i64::MAX,
        units matches Some(u) ==> u == pow2((depth + 2) as nat),
{
    proof {
        lemma2_to64();
        lemma2_to64_rest();
    }
    if depth > 60 {
        proof {
            if depth > 61 {
                lemma_pow2_strictly_increases(63, (depth + 2) as nat);
            }
        }
        return None;
    }
    let mut units: i64 = 4;
    let mut level: u8 = 0;
    while level < depth
        invariant
            level <= depth <= 60,
            units == pow2((level + 2) as nat),
            pow2(62) == 0x4000000000000000,
        decreases depth - level,
    {
        proof {
            lemma_pow2_unfold((level + 3) as nat);
            if level + 3 < 62 {
                lemma_pow2_strictly_increases((level + 3) as nat, 62);
            }
        }
        units = units * 2;
        level = level + 1;
    }
    Some(units)
}

fn scale_point(p: Point, units: i64) -> (scaled: Option<Point>)
    ensures
        scaled is Some <==> p@.scaled(units as int).fits(),
        scaled matches Some(q) ==> q@ == p@.scaled(units as int),
{
    match (p.x.checked_mul(units), p.y.checked_mul(units)) {
        (Some(x), Some(y)) => Some(Point { x, y }),
        _ => None,
    }
}

impl Scene {
    /// Lays a scene out from a triangle given in pixels, at `2^(depth + 2)`
    /// lattice units to the pixel. There is no scene where that scale, a
    /// scaled coordinate or the lowest row of the drawing is no `i64` value.
    pub fn from_pixels(sprite: bool, depth: u8, outline: Triangle) -> (scene: Option<Scene>)
        ensures
            scene is Some <==> can_lay_out(depth, outline@),
            scene matches Some(s) ==> {
                &&& s.sprite == sprite
                &&& s.depth == depth
                &&& s.units_per_pixel == pow2((depth + 2) as nat)
                &&& s.triangle@ == outline@.scaled(s.units_per_pixel as int)
                &&& s.triangle@.in_range()
                &&& is_drawable(depth as nat, s.triangle@)
                &&& quarters_evenly(depth as nat, s.triangle@)
            },
    {
        let units = match units_for(depth) {
            Some(units) => units,
            None => {
                return None;
            },
        };
        let top = match scale_point(outline.top, units) {
            Some(p) => p,
            None => {
                return None;
            },
        };
        let left = match scale_point(outline.left, units) {
            Some(p) => p,
            None => {
                return None;
            },
        };
        let right = match scale_point(outline.right, units) {
            Some(p) => p,
            None => {
                return None;
            },
        };
        let triangle = Triangle { top, left, right };
        if !triangle.is_in_range() {
            return None;
        }
        proof {
            let width = outline@.width();
            assert(triangle@.width() == width * units) by (nonlinear_arith)
                requires
                    triangle@.width() == outline@.right.x * units - outline@.left.x * units,
                    width == outline@.right.x - outline@.left.x,
            ;
            lemma_pow2_pos((depth + 2) as nat);
            lemma_mod_multiples_basic(width, units as int);
            lemma_quarters_evenly(depth as nat, triangle@);
            lemma_in_range_is_drawable(depth as nat, triangle@);
        }
        Some(Scene { sprite, depth, triangle, units_per_pixel: units })
    }
}

/// The whole picture as a list of operations: the image at the origin where
/// the scene has a sprite, then the drawing of the scene's depth that starts
/// from its triangle.
///
/// No point of the drawing may leave the `i64` range, as for
/// [`draw_sierpinski`]; of a scene laid out by [`Scene::from_pixels`] none
/// does.
pub fn render_scene(scene: &Scene) -> (ops: Vec<CanvasOp>)
    requires
        is_drawable(scene.depth as nat, scene.triangle@),
    ensures
        exists|colors: Seq<Color>|
            #[trigger] is_palette(colors, total_fills(scene.depth as nat)) && ops.deep_view()
                == backdrop(scene.sprite) + drawing(
                sierpinski_triangles(scene.depth as nat, scene.triangle@),
                colors,
            ),
        fills(ops.deep_view()) == total_fills(scene.depth as nat),
{
    let mut ops: Vec<CanvasOp> = Vec::new();
    if scene.sprite {
        ops.push(CanvasOp::DrawImage(Point { x: 0, y: 0 }));
    }
    assert(ops.deep_view() =~= backdrop(scene.sprite));
    assert(fills(backdrop(scene.sprite)) == 0) by {
        reveal_with_fuel(fills, 2);
        if scene.sprite {
            assert(backdrop(scene.sprite).drop_last() =~= Seq::<CanvasOpView>::empty());
        }
    }
    draw_sierpinski(&mut ops, scene.depth, scene.triangle);
    ops
}

} // verus!
