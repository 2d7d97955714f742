//! The drawing surface as a list of operations.
//!
//! Nothing here touches a canvas. Drawing appends operations to a list, and
//! whoever owns the surface carries them out in order, stopping at the first
//! that the surface rejects.

use crate::color::Color;
use crate::geometry::{Point, PointView, Triangle, TriangleView};
use vstd::prelude::*;

verus! {

/// One call on the drawing surface.
#[derive(Debug, PartialEq, Eq)]
pub enum CanvasOp {
    /// Draw the loaded image in its own size, its upper left corner at the
    /// point.
    DrawImage(Point),
    /// Make the text the current fill colour.
    SetFillStyle(String),
    /// Move the pen to the point.
    MoveTo(Point),
    /// Start a new outline.
    BeginPath,
    /// Draw a line from the pen's place to the point.
    LineTo(Point),
    /// Close the outline.
    ClosePath,
    /// Fill the outline with the current fill colour.
    Fill,
}

/// What a [`CanvasOp`] says, as a mathematical value.
pub enum CanvasOpView {
    DrawImage(PointView),
    SetFillStyle(Seq<char>),
    MoveTo(PointView),
    BeginPath,
    LineTo(PointView),
    ClosePath,
    Fill,
}

impl DeepView for CanvasOp {
    type V = CanvasOpView;

    open spec fn deep_view(&self) -> CanvasOpView {
        match *self {
            CanvasOp::DrawImage(p) => CanvasOpView::DrawImage(p@),
            CanvasOp::SetFillStyle(text) => CanvasOpView::SetFillStyle(text@),
            CanvasOp::MoveTo(p) => CanvasOpView::MoveTo(p@),
            CanvasOp::BeginPath => CanvasOpView::BeginPath,
            CanvasOp::LineTo(p) => CanvasOpView::LineTo(p@),
            CanvasOp::ClosePath => CanvasOpView::ClosePath,
            CanvasOp::Fill => CanvasOpView::Fill,
        }
    }
}

/// The operations that fill one triangle: the fill colour is set and the pen
/// moved to the apex; then the outline is begun, led to the left end, to the
/// right end and back to the apex, closed and filled.
pub open spec fn triangle_ops(t: TriangleView, style: Seq<char>) -> Seq<CanvasOpView> {
    seq![
        CanvasOpView::SetFillStyle(style),
        CanvasOpView::MoveTo(t.top),
        CanvasOpView::BeginPath,
        CanvasOpView::LineTo(t.left),
        CanvasOpView::LineTo(t.right),
        CanvasOpView::LineTo(t.top),
        CanvasOpView::ClosePath,
        CanvasOpView::Fill,
    ]
}

/// How many of the operations fill an outline.
pub open spec fn fills(ops: Seq<CanvasOpView>) -> nat
    decreases ops.len(),
{
    if ops.len() == 0 {
        0
    } else if ops.last() is Fill {
        fills(ops.drop_last()) + 1
    } else {
        fills(ops.drop_last())
    }
}

/// The fills of two lists add up when one list follows the other.
pub proof fn lemma_fills_concat(a: Seq<CanvasOpView>, b: Seq<CanvasOpView>)
    ensures
        fills(a + b) == fills(a) + fills(b),
    decreases b.len(),
{
    if b.len() == 0 {
        assert(a + b =~= a);
    } else {
        assert((a + b).drop_last() =~= a + b.drop_last());
        lemma_fills_concat(a, b.drop_last());
    }
}

/// Filling one triangle takes eight operations, the last of which is the
/// only fill.
pub proof fn lemma_fills_triangle(t: TriangleView, style: Seq<char>)
    ensures
        triangle_ops(t, style).len() == 8,
        fills(triangle_ops(t, style)) == 1,
{
    let ops = triangle_ops(t, style);
    let rest = seq![
        CanvasOpView::SetFillStyle(style),
        CanvasOpView::MoveTo(t.top),
        CanvasOpView::BeginPath,
        CanvasOpView::LineTo(t.left),
        CanvasOpView::LineTo(t.right),
        CanvasOpView::LineTo(t.top),
        CanvasOpView::ClosePath,
    ];
    assert(ops.drop_last() =~= rest);
    reveal_with_fuel(fills, 9);
    assert(rest.drop_last().drop_last().drop_last().drop_last().drop_last().drop_last().drop_last().len() == 0);
    assert(fills(rest) == 0);
}

fn emit(ops: &mut Vec<CanvasOp>, op: CanvasOp)
    ensures
        final(ops).deep_view() == old(ops).deep_view().push(op.deep_view()),
{
    ops.push(op);
    assert(ops.deep_view() =~= old(ops).deep_view().push(op.deep_view()));
}

/// Appends the operations that fill the triangle `points` with `color`.
pub fn draw_triangle(ops: &mut Vec<CanvasOp>, points: Triangle, color: Color)
    ensures
        final(ops).deep_view() == old(ops).deep_view() + triangle_ops(points@, color.style()),
{
    emit(ops, CanvasOp::SetFillStyle(color.to_style()));
    emit(ops, CanvasOp::MoveTo(points.top));
    emit(ops, CanvasOp::BeginPath);
    emit(ops, CanvasOp::LineTo(points.left));
    emit(ops, CanvasOp::LineTo(points.right));
    emit(ops, CanvasOp::LineTo(points.top));
    emit(ops, CanvasOp::ClosePath);
    emit(ops, CanvasOp::Fill);
    assert(ops.deep_view() =~= old(ops).deep_view() + triangle_ops(points@, color.style()));
}

} // verus!
