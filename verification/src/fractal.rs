//! The recursive drawing: which triangles are filled, in which order, and
//! how many.
//!
//! A drawing of depth `d` fills `3 + 9 + ... + 3^(d + 1)` triangles, so both
//! the time it takes and the length of the list it writes grow threefold
//! with every level. The depth is not clamped; a depth much beyond eight is
//! impractical.

use crate::canvas::{
    draw_triangle, fills, lemma_fills_concat, lemma_fills_triangle, triangle_ops, CanvasOp,
    CanvasOpView,
};
use crate::color::Color;
use crate::geometry::{lemma_corners_in_range, subdivide, Triangle, TriangleView};
use vstd::arithmetic::div_mod::{lemma_fundamental_div_mod, lemma_mod_multiples_basic};
use vstd::arithmetic::power2::{lemma2_to64, lemma_pow2_pos, lemma_pow2_unfold, pow2};
use vstd::prelude::*;

verus! {

/// The power `3^n`.
pub open spec fn three_to(n: nat) -> nat
    decreases n,
{
    if n == 0 {
        1
    } else {
        3 * three_to((n - 1) as nat)
    }
}

/// The sum `3 + 9 + ... + 3^(depth + 1)`: how many triangles a drawing of
/// the given depth fills.
pub open spec fn total_fills(depth: nat) -> nat
    decreases depth,
{
    if depth == 0 {
        3
    } else {
        total_fills((depth - 1) as nat) + three_to(depth + 1)
    }
}

/// The triangles that a drawing of the given depth fills, in the order in
/// which it fills them: the three corners of `t` (bottom left, bottom right,
/// top), then, unless the depth is zero, the drawings of depth minus one of
/// the top corner, of the bottom left corner and of the bottom right corner.
pub open spec fn sierpinski_triangles(depth: nat, t: TriangleView) -> Seq<TriangleView>
    decreases depth,
{
    let level = seq![t.bottom_left(), t.bottom_right(), t.top_corner()];
    if depth == 0 {
        level
    } else {
        level + sierpinski_triangles((depth - 1) as nat, t.top_corner()) + sierpinski_triangles(
            (depth - 1) as nat,
            t.bottom_left(),
        ) + sierpinski_triangles((depth - 1) as nat, t.bottom_right())
    }
}

/// The operations that fill the triangles one after the other, the triangle
/// at each index with the colour at the same index.
pub open spec fn drawing(triangles: Seq<TriangleView>, colors: Seq<Color>) -> Seq<CanvasOpView>
    decreases triangles.len(),
{
    if triangles.len() == 0 {
        Seq::empty()
    } else {
        drawing(triangles.drop_last(), colors) + triangle_ops(
            triangles.last(),
            colors[triangles.len() - 1].style(),
        )
    }
}

/// Whether these are `n` colours that sampling can give.
pub open spec fn is_palette(colors: Seq<Color>, n: nat) -> bool {
    &&& colors.len() == n
    &&& forall|i: int| 0 <= i < n ==> (#[trigger] colors[i]).is_sample()
}

/// Whether every point of a drawing of the given depth that starts from `t`
/// has `i64` coordinates. A midpoint's `x` lies between the ends of its base,
/// so only the rows of the midpoints, half a width below each apex, are in
/// question. A triangle that is in range is drawable at every depth, see
/// [`lemma_in_range_is_drawable`].
pub open spec fn is_drawable(depth: nat, t: TriangleView) -> bool
    decreases depth,
{
    &&& i64::MIN <= t.top.y + t.half() <= i64::MAX
    &&& depth > 0 ==> {
        &&& is_drawable((depth - 1) as nat, t.top_corner())
        &&& is_drawable((depth - 1) as nat, t.bottom_left())
        &&& is_drawable((depth - 1) as nat, t.bottom_right())
    }
}

/// Whether a drawing of the given depth that starts from `t` quarters every
/// width that it meets without rounding.
pub open spec fn quarters_evenly(depth: nat, t: TriangleView) -> bool
    decreases depth,
{
    &&& t.width() % 4 == 0
    &&& depth > 0 ==> {
        &&& quarters_evenly((depth - 1) as nat, t.top_corner())
        &&& quarters_evenly((depth - 1) as nat, t.bottom_left())
        &&& quarters_evenly((depth - 1) as nat, t.bottom_right())
    }
}

/// The number of fills in closed form, `(3^(depth + 2) - 3) / 2`, and level
/// by level: three fills, and three drawings of one level less.
pub proof fn lemma_total_fills(depth: nat)
    ensures
        2 * total_fills(depth) + 3 == three_to(depth + 2),
        depth > 0 ==> total_fills(depth) == 3 + 3 * total_fills((depth - 1) as nat),
    decreases depth,
{
    reveal_with_fuel(three_to, 3);
    if depth > 0 {
        lemma_total_fills((depth - 1) as nat);
    }
}

/// A drawing never goes lower than one width below its apex: a triangle
/// that is in range is drawable at every depth.
pub proof fn lemma_in_range_is_drawable(depth: nat, t: TriangleView)
    requires
        t.in_range(),
        i64::MIN <= t.top.y <= i64::MAX,
    ensures
        is_drawable(depth, t),
    decreases depth,
{
    lemma_corners_in_range(t);
    if depth > 0 {
        let less = (depth - 1) as nat;
        lemma_in_range_is_drawable(less, t.top_corner());
        lemma_in_range_is_drawable(less, t.bottom_left());
        lemma_in_range_is_drawable(less, t.bottom_right());
    }
}

/// A drawing of depth `d` fills `3 + 9 + ... + 3^(d + 1)` triangles,
/// whatever the triangle it starts from.
pub proof fn lemma_sierpinski_count(depth: nat, t: TriangleView)
    ensures
        sierpinski_triangles(depth, t).len() == total_fills(depth),
    decreases depth,
{
    if depth > 0 {
        let less = (depth - 1) as nat;
        lemma_total_fills(depth);
        lemma_sierpinski_count(less, t.top_corner());
        lemma_sierpinski_count(less, t.bottom_left());
        lemma_sierpinski_count(less, t.bottom_right());
    }
}

/// A drawing of depth zero fills the three corners and nothing else.
pub proof fn lemma_depth_zero(t: TriangleView, colors: Seq<Color>)
    ensures
        sierpinski_triangles(0, t) == seq![t.bottom_left(), t.bottom_right(), t.top_corner()],
        drawing(sierpinski_triangles(0, t), colors) == triangle_ops(
            t.bottom_left(),
            colors[0].style(),
        ) + triangle_ops(t.bottom_right(), colors[1].style()) + triangle_ops(
            t.top_corner(),
            colors[2].style(),
        ),
        fills(drawing(sierpinski_triangles(0, t), colors)) == 3,
{
    let level = sierpinski_triangles(0, t);
    let two = seq![t.bottom_left(), t.bottom_right()];
    let one = seq![t.bottom_left()];
    assert(level.drop_last() =~= two);
    assert(two.drop_last() =~= one);
    assert(one.drop_last() =~= Seq::<TriangleView>::empty());
    reveal_with_fuel(drawing, 4);
    assert(drawing(one, colors) =~= triangle_ops(t.bottom_left(), colors[0].style()));
    lemma_drawing_fills(level, colors);
}

/// Only the colours at the indices of the triangles matter.
pub proof fn lemma_drawing_colors(triangles: Seq<TriangleView>, a: Seq<Color>, b: Seq<Color>)
    requires
        forall|i: int| 0 <= i < triangles.len() ==> a[i] == b[i],
    ensures
        drawing(triangles, a) == drawing(triangles, b),
    decreases triangles.len(),
{
    if triangles.len() > 0 {
        lemma_drawing_colors(triangles.drop_last(), a, b);
    }
}

/// Filling one list of triangles and then another is filling the two lists
/// joined, with the colours joined alike.
pub proof fn lemma_drawing_concat(
    first: Seq<TriangleView>,
    second: Seq<TriangleView>,
    first_colors: Seq<Color>,
    second_colors: Seq<Color>,
)
    requires
        first_colors.len() == first.len(),
        second_colors.len() == second.len(),
    ensures
        drawing(first + second, first_colors + second_colors) == drawing(first, first_colors)
            + drawing(second, second_colors),
    decreases second.len(),
{
    let colors = first_colors + second_colors;
    if second.len() == 0 {
        assert(first + second =~= first);
        lemma_drawing_colors(first, colors, first_colors);
        assert(drawing(first, first_colors) + drawing(second, second_colors) =~= drawing(
            first,
            first_colors,
        ));
    } else {
        assert((first + second).drop_last() =~= first + second.drop_last());
        lemma_drawing_concat(first, second.drop_last(), first_colors, second_colors.drop_last());
        lemma_drawing_colors(second.drop_last(), second_colors.drop_last(), second_colors);
        lemma_drawing_colors(
            first + second.drop_last(),
            first_colors + second_colors.drop_last(),
            colors,
        );
        assert(colors[first.len() + second.len() - 1] == second_colors[second.len() - 1]);
        assert(drawing(first + second, colors) =~= drawing(first, first_colors) + drawing(
            second,
            second_colors,
        ));
    }
}

/// Every triangle takes eight operations, one of them a fill.
pub proof fn lemma_drawing_fills(triangles: Seq<TriangleView>, colors: Seq<Color>)
    ensures
        drawing(triangles, colors).len() == 8 * triangles.len(),
        fills(drawing(triangles, colors)) == triangles.len(),
    decreases triangles.len(),
{
    if triangles.len() > 0 {
        let last = triangle_ops(triangles.last(), colors[triangles.len() - 1].style());
        lemma_drawing_fills(triangles.drop_last(), colors);
        lemma_fills_triangle(triangles.last(), colors[triangles.len() - 1].style());
        lemma_fills_concat(drawing(triangles.drop_last(), colors), last);
    }
}

/// The drawing of a given depth fills `3 + 9 + ... + 3^(depth + 1)`
/// triangles, whatever the triangle and the colours.
pub proof fn lemma_sierpinski_fills(depth: nat, t: TriangleView, colors: Seq<Color>)
    ensures
        fills(drawing(sierpinski_triangles(depth, t), colors)) == total_fills(depth),
{
    lemma_sierpinski_count(depth, t);
    lemma_drawing_fills(sierpinski_triangles(depth, t), colors);
}

/// A drawing of depth above zero is the drawing of the three corners
/// followed by the drawings of one level less of the top, the bottom left
/// and the bottom right corner, and it takes their colours in this order.
pub proof fn lemma_drawing_by_levels(
    depth: nat,
    t: TriangleView,
    level_colors: Seq<Color>,
    top_colors: Seq<Color>,
    left_colors: Seq<Color>,
    right_colors: Seq<Color>,
)
    requires
        depth > 0,
        is_palette(level_colors, 3),
        is_palette(top_colors, total_fills((depth - 1) as nat)),
        is_palette(left_colors, total_fills((depth - 1) as nat)),
        is_palette(right_colors, total_fills((depth - 1) as nat)),
    ensures
        is_palette(
            level_colors + top_colors + left_colors + right_colors,
            total_fills(depth),
        ),
        drawing(
            sierpinski_triangles(depth, t),
            level_colors + top_colors + left_colors + right_colors,
        ) == drawing(sierpinski_triangles(0, t), level_colors) + drawing(
            sierpinski_triangles((depth - 1) as nat, t.top_corner()),
            top_colors,
        ) + drawing(sierpinski_triangles((depth - 1) as nat, t.bottom_left()), left_colors)
            + drawing(sierpinski_triangles((depth - 1) as nat, t.bottom_right()), right_colors),
{
    let less = (depth - 1) as nat;
    let level = sierpinski_triangles(0, t);
    let top = sierpinski_triangles(less, t.top_corner());
    let left = sierpinski_triangles(less, t.bottom_left());
    let right = sierpinski_triangles(less, t.bottom_right());
    lemma_sierpinski_count(less, t.top_corner());
    lemma_sierpinski_count(less, t.bottom_left());
    lemma_sierpinski_count(less, t.bottom_right());
    lemma_total_fills(depth);
    lemma_drawing_concat(level, top, level_colors, top_colors);
    lemma_drawing_concat(level + top, left, level_colors + top_colors, left_colors);
    lemma_drawing_concat(
        level + top + left,
        right,
        level_colors + top_colors + left_colors,
        right_colors,
    );
    assert(sierpinski_triangles(depth, t) == level + top + left + right);
}

/// Appends the drawing of the given depth that starts from `points`.
///
/// The three corners of `points` are filled at once, each in a colour drawn
/// for it alone; then, unless the depth is zero, the same is done at depth
/// minus one for the top corner, the bottom left corner and the bottom right
/// corner, in this order. The triangles and their order are fixed by
/// `sierpinski_triangles`; of the colours, only their range is known.
///
/// No point of the drawing may leave the `i64` range. That holds at every
/// depth of a triangle for which [`Triangle::is_in_range`] says yes.
pub fn draw_sierpinski(ops: &mut Vec<CanvasOp>, depth: u8, points: Triangle)
    requires
        is_drawable(depth as nat, points@),
    ensures
        exists|colors: Seq<Color>|
            #[trigger] is_palette(colors, total_fills(depth as nat)) && final(ops).deep_view()
                == old(ops).deep_view() + drawing(
                sierpinski_triangles(depth as nat, points@),
                colors,
            ),
        fills(final(ops).deep_view()) == fills(old(ops).deep_view()) + total_fills(depth as nat),
    decreases depth,
{
    let corners = subdivide(points);
    let mut rng = rand::thread_rng();
    let first = Color::random(&mut rng);
    draw_triangle(ops, corners.bottom_left, first);
    let second = Color::random(&mut rng);
    draw_triangle(ops, corners.bottom_right, second);
    let third = Color::random(&mut rng);
    draw_triangle(ops, corners.top, third);
    let ghost level_colors = seq![first, second, third];
    let ghost mut colors = level_colors;
    let ghost drawn = ops.deep_view();
    proof {
        lemma_depth_zero(points@, level_colors);
        assert(drawn == old(ops).deep_view() + drawing(
            sierpinski_triangles(0, points@),
            level_colors,
        ));
    }
    if depth > 0 {
        let ghost less = (depth - 1) as nat;
        draw_sierpinski(ops, depth - 1, corners.top);
        let ghost drawn_top = ops.deep_view();
        draw_sierpinski(ops, depth - 1, corners.bottom_left);
        let ghost drawn_left = ops.deep_view();
        draw_sierpinski(ops, depth - 1, corners.bottom_right);
        proof {
            let top_colors = choose|c: Seq<Color>|
                #[trigger] is_palette(c, total_fills(less)) && drawn_top == drawn + drawing(
                    sierpinski_triangles(less, points@.top_corner()),
                    c,
                );
            let left_colors = choose|c: Seq<Color>|
                #[trigger] is_palette(c, total_fills(less)) && drawn_left == drawn_top + drawing(
                    sierpinski_triangles(less, points@.bottom_left()),
                    c,
                );
            let right_colors = choose|c: Seq<Color>|
                #[trigger] is_palette(c, total_fills(less)) && ops.deep_view() == drawn_left
                    + drawing(sierpinski_triangles(less, points@.bottom_right()), c);
            lemma_drawing_by_levels(
                depth as nat,
                points@,
                level_colors,
                top_colors,
                left_colors,
                right_colors,
            );
            colors = level_colors + top_colors + left_colors + right_colors;
            assert(ops.deep_view() =~= old(ops).deep_view() + drawing(
                sierpinski_triangles(depth as nat, points@),
                colors,
            ));
        }
    }
    proof {
        assert(is_palette(colors, total_fills(depth as nat)));
        lemma_sierpinski_fills(depth as nat, points@, colors);
        lemma_fills_concat(
            old(ops).deep_view(),
            drawing(sierpinski_triangles(depth as nat, points@), colors),
        );
    }
}

/// Every corner is half as wide as its triangle once the quarter is exact,
/// so a drawing of depth `d` from a base whose width is a multiple of
/// `2^(d + 2)` units rounds nothing.
pub proof fn lemma_quarters_evenly(depth: nat, t: TriangleView)
    requires
        t.width() % (pow2(depth + 2) as int) == 0,
    ensures
        quarters_evenly(depth, t),
    decreases depth,
{
    let whole = pow2(depth + 2) as int;
    let part = pow2(depth + 1) as int;
    let times = t.width() / whole;
    lemma_pow2_pos(depth + 1);
    lemma_pow2_unfold(depth + 2);
    lemma_fundamental_div_mod(t.width(), whole);
    assert(whole * times == 2 * (part * times)) by (nonlinear_arith)
        requires
            whole == 2 * part,
    ;
    if depth == 0 {
        lemma2_to64();
    } else {
        lemma_pow2_pos(depth);
        lemma_pow2_unfold(depth + 1);
        assert(part * times == 2 * (pow2(depth) * times)) by (nonlinear_arith)
            requires
                part == 2 * pow2(depth),
        ;
    }
    assert(t.width() % 4 == 0);
    if depth > 0 {
        let less = (depth - 1) as nat;
        assert(t.half() == part * times);
        assert((part * times) % part == 0) by {
            lemma_mod_multiples_basic(times, part);
            assert(times * part == part * times) by (nonlinear_arith);
        }
        assert(t.top_corner().width() == t.half());
        assert(t.bottom_left().width() == t.half());
        assert(t.bottom_right().width() == t.half());
        lemma_quarters_evenly(less, t.top_corner());
        lemma_quarters_evenly(less, t.bottom_left());
        lemma_quarters_evenly(less, t.bottom_right());
    }
}

} // verus!
