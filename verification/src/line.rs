//! Lines of pixels between two points.
use vstd::prelude::*;
use crate::fixed::magnitude;
use crate::fixed::trunc_div;
use crate::geometry::Point;
use crate::vector::Vec2;

verus! {

/// One step along a line whose extent is `dx` by `dy` and which runs in the
/// directions `sx` and `sy`: from the position and the error term before the
/// step to those after it. The column moves when the error is above `-dx`,
/// the row when it is below `dy`.
pub open spec fn line_step_spec(x: int, y: int, err: int, dx: int, dy: int, sx: int, sy: int) -> (
    int,
    int,
    int,
) {
    let x_moves = err > -dx;
    let y_moves = err < dy;
    (
        if x_moves {
            x + sx
        } else {
            x
        },
        if y_moves {
            y + sy
        } else {
            y
        },
        err - (if x_moves {
            dy
        } else {
            0
        }) + (if y_moves {
            dx
        } else {
            0
        }),
    )
}

/// The point at `(x, y)` and the `steps` points that follow it on the line.
pub open spec fn line_points_spec(
    x: int,
    y: int,
    err: int,
    dx: int,
    dy: int,
    sx: int,
    sy: int,
    steps: nat,
) -> Seq<Point>
    decreases steps,
{
    let here = seq![Point { x: x as i32, y: y as i32 }];
    if steps == 0 {
        here
    } else {
        let (x1, y1, err1) = line_step_spec(x, y, err, dx, dy, sx, sy);
        here + line_points_spec(x1, y1, err1, dx, dy, sx, sy, (steps - 1) as nat)
    }
}

/// The number of steps from `start` to `end`: the larger of the two extents.
pub open spec fn line_steps_spec(start: Point, end: Point) -> nat {
    let dx = magnitude(end.x - start.x);
    let dy = magnitude(end.y - start.y);
    (if dx > dy {
        dx
    } else {
        dy
    }) as nat
}

/// The pixels of the line from `start` to `end`, both included, in the order
/// in which the line is walked. The error term starts at half the larger
/// extent, counted positive when the line is wider than tall and negative when
/// not.
pub open spec fn bresenham_spec(start: Point, end: Point) -> Seq<Point> {
    let dx = magnitude(end.x - start.x);
    let dy = magnitude(end.y - start.y);
    let sx: int = if start.x < end.x {
        1
    } else {
        -1
    };
    let sy: int = if start.y < end.y {
        1
    } else {
        -1
    };
    let err = trunc_div(
        if dx > dy {
            dx
        } else {
            -dy
        },
        2,
    );
    line_points_spec(
        start.x as int,
        start.y as int,
        err,
        dx,
        dy,
        sx,
        sy,
        line_steps_spec(start, end),
    )
}

/// The truncated ends of a line given in screen coordinates.
pub open spec fn line_ends_spec(vert0: Vec2, vert1: Vec2) -> (Point, Point) {
    (
        Point { x: vert0.x.to_i32_spec() as i32, y: vert0.y.to_i32_spec() as i32 },
        Point { x: vert1.x.to_i32_spec() as i32, y: vert1.y.to_i32_spec() as i32 },
    )
}

/// A walk that has taken all its column steps has taken all its row steps
/// too, and the other way round.
proof fn lemma_walk_ends_together(a: int, b: int, err: int, err0: int, dx: int, dy: int)
    requires
        0 <= a <= dx,
        0 <= b <= dy,
        err == err0 - a * dy + b * dx,
        dx > dy ==> 0 <= err < dx && 0 <= err0 < dx && a == dx,
        dx <= dy ==> -dy < err <= 0 && -dy < err0 <= 0 && b == dy,
    ensures
        a == dx,
        b == dy,
{
    if dx > dy {
        assert(b == dy) by (nonlinear_arith)
            requires
                0 <= b <= dy,
                0 <= err0 - dx * dy + b * dx < dx,
                0 <= err0 < dx,
        ;
    } else {
        assert(a == dx) by (nonlinear_arith)
            requires
                0 <= a <= dx,
                -dy < err0 - a * dy + dy * dx <= 0,
                -dy < err0 <= 0,
        ;
    }
}

/// A walk under way never takes more steps one way than the line is long
/// that way.
proof fn lemma_walk_stays_inside(a: int, b: int, err: int, err0: int, dx: int, dy: int)
    requires
        0 <= a,
        0 <= b,
        err == err0 - a * dy + b * dx,
        dx > dy ==> 0 <= err < dx && 0 <= err0 < dx && a <= dx,
        dx <= dy ==> -dy < err <= 0 && -dy < err0 <= 0 && b <= dy,
        0 <= dx,
        0 <= dy,
    ensures
        a <= dx,
        b <= dy,
{
    if dx > dy {
        assert(b <= dy) by (nonlinear_arith)
            requires
                0 <= a <= dx,
                0 <= b,
                0 <= dy < dx,
                err0 - a * dy + b * dx < dx,
                0 <= err0,
        ;
    } else {
        assert(a <= dx) by (nonlinear_arith)
            requires
                0 <= b <= dy,
                0 <= a,
                0 <= dx <= dy,
                -dy < err0 - a * dy + b * dx,
                err0 <= 0,
        ;
    }
}

/// The pixels of the line from `start` to `end`.
pub fn line_between(start: Point, end: Point) -> (coords: Vec<Point>)
    ensures
        coords@ == bresenham_spec(start, end),
        coords@.len() == line_steps_spec(start, end) + 1,
        coords@[0] == start,
        coords@[coords@.len() - 1] == end,
{
    let mut coords: Vec<Point> = Vec::new();

    let x0: i64 = start.x as i64;
    let y0: i64 = start.y as i64;
    let x1: i64 = end.x as i64;
    let y1: i64 = end.y as i64;

    let deltax: i64 = if x1 >= x0 {
        x1 - x0
    } else {
        x0 - x1
    };
    let deltay: i64 = if y1 >= y0 {
        y1 - y0
    } else {
        y0 - y1
    };

    let step_x: i64 = if x0 < x1 {
        1
    } else {
        -1
    };
    let step_y: i64 = if y0 < y1 {
        1
    } else {
        -1
    };

    let mut curr_x: i64 = x0;
    let mut curr_y: i64 = y0;

    let error0: i64 = if deltax > deltay {
        deltax / 2
    } else {
        -(deltay / 2)
    };
    let mut error: i64 = error0;

    let ghost whole = bresenham_spec(start, end);
    let ghost total = line_steps_spec(start, end);
    let ghost a: int = 0;
    let ghost b: int = 0;
    let ghost a_dy: int = 0;
    let ghost b_dx: int = 0;
    let ghost taken: int = 0;
    proof {
        assert(coords@ + whole =~= whole);
    }

    loop
        invariant_except_break
            coords@ + line_points_spec(
                curr_x as int,
                curr_y as int,
                error as int,
                deltax as int,
                deltay as int,
                step_x as int,
                step_y as int,
                (total - taken) as nat,
            ) == whole,
            coords@.len() == taken,
        invariant
            x0 == start.x,
            y0 == start.y,
            x1 == end.x,
            y1 == end.y,
            deltax == magnitude(end.x - start.x),
            deltay == magnitude(end.y - start.y),
            step_x == (if x0 < x1 {
                1int
            } else {
                -1int
            }),
            step_y == (if y0 < y1 {
                1int
            } else {
                -1int
            }),
            total == line_steps_spec(start, end),
            whole == bresenham_spec(start, end),
            0 <= taken <= total,
            0 <= a <= deltax,
            0 <= b <= deltay,
            a_dy == a * deltay,
            b_dx == b * deltax,
            curr_x == (if x0 < x1 {
                x0 + a
            } else {
                x0 - a
            }),
            curr_y == (if y0 < y1 {
                y0 + b
            } else {
                y0 - b
            }),
            error == error0 - a_dy + b_dx,
            deltax > deltay ==> 0 <= error < deltax && 0 <= error0 < deltax && a == taken,
            deltax <= deltay ==> (deltay > 0 ==> -deltay < error <= 0 && -deltay < error0 <= 0) && b
                == taken,
        ensures
            coords@ == whole,
            coords@.len() == total + 1,
            coords@[coords@.len() - 1] == end,
        decreases total - taken,
    {
        let ghost rest = line_points_spec(
            curr_x as int,
            curr_y as int,
            error as int,
            deltax as int,
            deltay as int,
            step_x as int,
            step_y as int,
            (total - taken) as nat,
        );
        let ghost older = coords@;
        coords.push(Point { x: curr_x as i32, y: curr_y as i32 });

        proof {
            if taken == total {
                if deltay > 0 || deltax > deltay {
                    lemma_walk_ends_together(
                        a,
                        b,
                        error as int,
                        error0 as int,
                        deltax as int,
                        deltay as int,
                    );
                }
                assert(a == deltax && b == deltay);
                assert(coords@ =~= older + rest);
            }
        }

        if curr_x == x1 && curr_y == y1 {
            break ;
        }
        let error2: i64 = error;
        if error2 > -deltax {
            error -= deltay;
            curr_x += step_x;
            proof {
                assert((a + 1) * deltay == a * deltay + deltay) by (nonlinear_arith);
                a = a + 1;
                a_dy = a_dy + deltay;
            }
        }
        if error2 < deltay {
            error += deltax;
            curr_y += step_y;
            proof {
                assert((b + 1) * deltax == b * deltax + deltax) by (nonlinear_arith);
                b = b + 1;
                b_dx = b_dx + deltax;
            }
        }
        proof {
            taken = taken + 1;
            lemma_walk_stays_inside(a, b, error as int, error0 as int, deltax as int, deltay as int);
            assert(coords@ + line_points_spec(
                curr_x as int,
                curr_y as int,
                error as int,
                deltax as int,
                deltay as int,
                step_x as int,
                step_y as int,
                (total - taken) as nat,
            ) =~= older + rest);
        }
    }
    coords
}

/// The pixels of the line between two screen positions, each cut to the
/// pixel it falls in.
pub fn bresenham_function(vert0: Vec2, vert1: Vec2) -> (coords: Vec<Point>)
    ensures
        coords@ == bresenham_spec(line_ends_spec(vert0, vert1).0, line_ends_spec(vert0, vert1).1),
        coords@.len() == line_steps_spec(
            line_ends_spec(vert0, vert1).0,
            line_ends_spec(vert0, vert1).1,
        ) + 1,
        coords@[0] == line_ends_spec(vert0, vert1).0,
        coords@[coords@.len() - 1] == line_ends_spec(vert0, vert1).1,
{
    let start = Point { x: vert0.x.to_i32(), y: vert0.y.to_i32() };
    let end = Point { x: vert1.x.to_i32(), y: vert1.y.to_i32() };
    line_between(start, end)
}

} // verus!
