use hello_triangle::line::line_between;
use hello_triangle::{bresenham_function, Fixed, Point, Vec2};

fn at(x: f64, y: f64) -> Vec2 {
    Vec2::new(
        Fixed::from_raw((x * 4294967296.0).round() as i64),
        Fixed::from_raw((y * 4294967296.0).round() as i64),
    )
}

fn pt(x: i32, y: i32) -> Point {
    Point { x, y }
}

#[test]
fn a_line_of_one_point() {
    assert_eq!(line_between(pt(3, -4), pt(3, -4)), vec![pt(3, -4)]);
    assert_eq!(bresenham_function(at(3.2, 4.9), at(3.7, 4.1)), vec![pt(3, 4)]);
}

#[test]
fn a_level_line() {
    assert_eq!(
        line_between(pt(0, 0), pt(4, 0)),
        vec![pt(0, 0), pt(1, 0), pt(2, 0), pt(3, 0), pt(4, 0)]
    );
    assert_eq!(line_between(pt(2, 5), pt(0, 5)), vec![pt(2, 5), pt(1, 5), pt(0, 5)]);
}

#[test]
fn an_upright_line() {
    assert_eq!(line_between(pt(1, 1), pt(1, 4)), vec![pt(1, 1), pt(1, 2), pt(1, 3), pt(1, 4)]);
    assert_eq!(line_between(pt(1, 1), pt(1, -1)), vec![pt(1, 1), pt(1, 0), pt(1, -1)]);
}

#[test]
fn a_diagonal_line() {
    assert_eq!(line_between(pt(0, 0), pt(3, 3)), vec![pt(0, 0), pt(1, 1), pt(2, 2), pt(3, 3)]);
    assert_eq!(line_between(pt(0, 0), pt(-2, 2)), vec![pt(0, 0), pt(-1, 1), pt(-2, 2)]);
}

#[test]
fn a_shallow_line() {
    assert_eq!(
        line_between(pt(0, 0), pt(5, 2)),
        vec![pt(0, 0), pt(1, 0), pt(2, 1), pt(3, 1), pt(4, 2), pt(5, 2)]
    );
}

#[test]
fn a_steep_line() {
    assert_eq!(
        line_between(pt(0, 0), pt(2, 5)),
        vec![pt(0, 0), pt(0, 1), pt(1, 2), pt(1, 3), pt(2, 4), pt(2, 5)]
    );
}

#[test]
fn lines_start_and_end_where_asked() {
    let ends = [
        (pt(0, 0), pt(17, 5)),
        (pt(17, 5), pt(0, 0)),
        (pt(-8, 3), pt(4, -21)),
        (pt(4, -21), pt(-8, 3)),
        (pt(-3, -3), pt(-30, -4)),
        (pt(100, 7), pt(101, 300)),
    ];
    for (start, end) in ends {
        let line = line_between(start, end);
        let dx = (end.x - start.x).unsigned_abs() as usize;
        let dy = (end.y - start.y).unsigned_abs() as usize;
        assert_eq!(line.len(), dx.max(dy) + 1);
        assert_eq!(line[0], start);
        assert_eq!(line[line.len() - 1], end);
        for pair in line.windows(2) {
            assert!((pair[1].x - pair[0].x).abs() <= 1);
            assert!((pair[1].y - pair[0].y).abs() <= 1);
            assert_ne!(pair[0], pair[1]);
        }
    }
}

#[test]
fn screen_coordinates_are_cut_to_whole_pixels() {
    assert_eq!(
        bresenham_function(at(0.9, 0.2), at(3.99, 1.5)),
        vec![pt(0, 0), pt(1, 0), pt(2, 1), pt(3, 1)]
    );
    assert_eq!(bresenham_function(at(-0.9, 0.0), at(1.5, 0.0)), vec![pt(0, 0), pt(1, 0)]);
}

#[test]
fn lines_span_the_whole_range_of_coordinates() {
    let line = line_between(pt(i32::MAX - 2, i32::MIN), pt(i32::MAX, i32::MIN + 1));
    assert_eq!(
        line,
        vec![pt(i32::MAX - 2, i32::MIN), pt(i32::MAX - 1, i32::MIN), pt(i32::MAX, i32::MIN + 1)]
    );
}
