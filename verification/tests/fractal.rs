use sierpinski::canvas::CanvasOp;
use sierpinski::fractal::draw_sierpinski;
use sierpinski::geometry::{subdivide, Point, Triangle};

fn apex_triangle() -> Triangle {
    Triangle {
        top: Point { x: 300, y: 0 },
        left: Point { x: 0, y: 600 },
        right: Point { x: 600, y: 600 },
    }
}

fn count_fills(ops: &[CanvasOp]) -> usize {
    ops.iter().filter(|op| matches!(op, CanvasOp::Fill)).count()
}

/// Reads the operations back as filled triangles with their styles, and
/// fails on anything that is not the eight operations of a triangle.
fn filled(ops: &[CanvasOp]) -> Vec<(Triangle, String)> {
    assert_eq!(ops.len() % 8, 0);
    let mut out = Vec::new();
    for group in ops.chunks(8) {
        let style = match &group[0] {
            CanvasOp::SetFillStyle(text) => text.clone(),
            other => panic!("expected a fill style, found {:?}", other),
        };
        let top = match &group[1] {
            CanvasOp::MoveTo(p) => *p,
            other => panic!("expected a move, found {:?}", other),
        };
        assert_eq!(group[2], CanvasOp::BeginPath);
        let left = match &group[3] {
            CanvasOp::LineTo(p) => *p,
            other => panic!("expected a line, found {:?}", other),
        };
        let right = match &group[4] {
            CanvasOp::LineTo(p) => *p,
            other => panic!("expected a line, found {:?}", other),
        };
        assert_eq!(group[5], CanvasOp::LineTo(top));
        assert_eq!(group[6], CanvasOp::ClosePath);
        assert_eq!(group[7], CanvasOp::Fill);
        out.push((Triangle { top, left, right }, style));
    }
    out
}

fn channels(style: &str) -> Vec<u32> {
    let inner = style.strip_prefix("rgb(").and_then(|rest| rest.strip_suffix(")"));
    let inner = match inner {
        Some(inner) => inner,
        None => panic!("not an rgb style: {}", style),
    };
    inner.split(", ").map(|part| part.parse::<u32>().unwrap()).collect()
}

/// The triangles of a drawing, written out level by level.
fn expected_triangles(depth: u8, t: Triangle) -> Vec<Triangle> {
    let c = subdivide(t);
    let mut out = vec![c.bottom_left, c.bottom_right, c.top];
    if depth > 0 {
        out.extend(expected_triangles(depth - 1, c.top));
        out.extend(expected_triangles(depth - 1, c.bottom_left));
        out.extend(expected_triangles(depth - 1, c.bottom_right));
    }
    out
}

#[test]
fn depth_zero_fills_three_triangles() {
    let mut ops = Vec::new();
    draw_sierpinski(&mut ops, 0, apex_triangle());
    assert_eq!(count_fills(&ops), 3);
    assert_eq!(ops.len(), 24);
}

#[test]
fn depth_one_fills_twelve_triangles() {
    let mut ops = Vec::new();
    draw_sierpinski(&mut ops, 1, apex_triangle());
    assert_eq!(count_fills(&ops), 12);
}

#[test]
fn depth_two_fills_thirty_nine_triangles() {
    let mut ops = Vec::new();
    draw_sierpinski(&mut ops, 2, apex_triangle());
    assert_eq!(count_fills(&ops), 39);
}

#[test]
fn fills_grow_as_the_sum_of_powers_of_three() {
    let mut expected = 0usize;
    let mut power = 1usize;
    for depth in 0..=6u8 {
        power *= 3;
        expected += power;
        let mut ops = Vec::new();
        draw_sierpinski(&mut ops, depth, apex_triangle());
        assert_eq!(count_fills(&ops), expected);
        assert_eq!(ops.len(), 8 * expected);
    }
    assert_eq!(expected, 3279);
}

#[test]
fn depth_zero_draws_the_corners_and_stops() {
    let mut ops = Vec::new();
    draw_sierpinski(&mut ops, 0, apex_triangle());
    let drawn: Vec<Triangle> = filled(&ops).into_iter().map(|(t, _)| t).collect();
    let p = |x, y| Point { x, y };
    assert_eq!(
        drawn,
        vec![
            Triangle { top: p(150, 300), left: p(0, 600), right: p(300, 600) },
            Triangle { top: p(450, 300), left: p(300, 600), right: p(600, 600) },
            Triangle { top: p(300, 0), left: p(150, 300), right: p(450, 300) },
        ]
    );
}

#[test]
fn depth_one_recurses_into_top_then_left_then_right() {
    let mut ops = Vec::new();
    draw_sierpinski(&mut ops, 1, apex_triangle());
    let drawn: Vec<Triangle> = filled(&ops).into_iter().map(|(t, _)| t).collect();
    let p = |x, y| Point { x, y };
    let expected = vec![
        // the three corners of the whole
        Triangle { top: p(150, 300), left: p(0, 600), right: p(300, 600) },
        Triangle { top: p(450, 300), left: p(300, 600), right: p(600, 600) },
        Triangle { top: p(300, 0), left: p(150, 300), right: p(450, 300) },
        // the corners of the top corner
        Triangle { top: p(225, 150), left: p(150, 300), right: p(300, 300) },
        Triangle { top: p(375, 150), left: p(300, 300), right: p(450, 300) },
        Triangle { top: p(300, 0), left: p(225, 150), right: p(375, 150) },
        // the corners of the bottom left corner
        Triangle { top: p(75, 450), left: p(0, 600), right: p(150, 600) },
        Triangle { top: p(225, 450), left: p(150, 600), right: p(300, 600) },
        Triangle { top: p(150, 300), left: p(75, 450), right: p(225, 450) },
        // the corners of the bottom right corner
        Triangle { top: p(375, 450), left: p(300, 600), right: p(450, 600) },
        Triangle { top: p(525, 450), left: p(450, 600), right: p(600, 600) },
        Triangle { top: p(450, 300), left: p(375, 450), right: p(525, 450) },
    ];
    assert_eq!(drawn, expected);
}

#[test]
fn deeper_drawings_follow_the_same_order() {
    for depth in 0..=4u8 {
        let mut ops = Vec::new();
        draw_sierpinski(&mut ops, depth, apex_triangle());
        let drawn: Vec<Triangle> = filled(&ops).into_iter().map(|(t, _)| t).collect();
        assert_eq!(drawn, expected_triangles(depth, apex_triangle()));
    }
}

#[test]
fn drawing_is_appended_to_what_was_drawn() {
    let mut ops = vec![CanvasOp::DrawImage(Point { x: 0, y: 0 })];
    draw_sierpinski(&mut ops, 1, apex_triangle());
    assert_eq!(ops[0], CanvasOp::DrawImage(Point { x: 0, y: 0 }));
    assert_eq!(filled(&ops[1..]).len(), 12);
}

#[test]
fn every_triangle_gets_a_sampled_colour() {
    let mut ops = Vec::new();
    draw_sierpinski(&mut ops, 3, apex_triangle());
    let drawn = filled(&ops);
    assert_eq!(drawn.len(), 120);
    for (_, style) in &drawn {
        let c = channels(style);
        assert_eq!(c.len(), 3);
        assert!(c.iter().all(|&v| v < 255));
    }
    let first = &drawn[0].1;
    assert!(drawn.iter().any(|(_, style)| style != first));
}

#[test]
fn degenerate_triangle_is_drawn_in_full() {
    let p = Point { x: 7, y: 7 };
    let flat = Triangle { top: p, left: p, right: p };
    let mut ops = Vec::new();
    draw_sierpinski(&mut ops, 2, flat);
    let drawn = filled(&ops);
    assert_eq!(drawn.len(), 39);
    assert!(drawn.iter().all(|(t, _)| *t == flat));
}

#[test]
fn drawing_reaches_the_last_row_in_range() {
    let t = Triangle {
        top: Point { x: 0, y: i64::MAX - 1024 },
        left: Point { x: 0, y: 0 },
        right: Point { x: 1024, y: 0 },
    };
    assert!(t.is_in_range());
    let mut ops = Vec::new();
    draw_sierpinski(&mut ops, 8, t);
    let lowest = filled(&ops).into_iter().map(|(t, _)| t.top.y).max();
    assert_eq!(lowest, Some(i64::MAX - 2));
}

#[test]
fn narrow_triangle_on_the_last_row_is_drawn() {
    // Too narrow to have a quarter: nothing ever moves off the apex's row,
    // though one width below it there is no row.
    let t = Triangle {
        top: Point { x: 0, y: i64::MAX },
        left: Point { x: 0, y: 0 },
        right: Point { x: 3, y: 0 },
    };
    assert!(!t.is_in_range());
    let mut ops = Vec::new();
    draw_sierpinski(&mut ops, 2, t);
    let drawn = filled(&ops);
    assert_eq!(drawn.len(), 39);
    assert_eq!(
        drawn[0].0,
        Triangle {
            top: Point { x: 0, y: i64::MAX },
            left: Point { x: 0, y: 0 },
            right: Point { x: 0, y: 0 },
        }
    );
    assert_eq!(
        drawn[1].0,
        Triangle {
            top: Point { x: 3, y: i64::MAX },
            left: Point { x: 0, y: 0 },
            right: Point { x: 3, y: 0 },
        }
    );
}
