use hello_triangle::{
    clip_cull_triangle, clip_triangle_one, clip_triangle_two, cull_triangle_backface,
    cull_triangle_view_frustum, ClipResult, Fixed, Lerp, Triangle, Vec2, Vec3, Vec4, Vertex,
    VerticesOrder,
};

fn q(value: f64) -> Fixed {
    Fixed::from_raw((value * 4294967296.0).round() as i64)
}

fn corner(x: f64, y: f64, z: f64, w: f64) -> Vertex {
    Vertex {
        position: Vec4::new(q(x), q(y), q(z), q(w)),
        normal: Vec3::new(q(0.0), q(0.0), q(1.0)),
        color: Vec3::new(q(x), q(y), q(z)),
        uv: Vec2::new(q(x), q(y)),
    }
}

fn facing_triangle(z0: f64, z1: f64, z2: f64) -> Triangle {
    Triangle::Construct(
        corner(-1.0, -1.0, z0, 2.0),
        corner(1.0, -1.0, z1, 2.0),
        corner(0.0, 1.0, z2, 2.0),
    )
}

fn depths(tri: &Triangle) -> [Fixed; 3] {
    [tri.vert0.position.z, tri.vert1.position.z, tri.vert2.position.z]
}

#[test]
fn reorder_lists_the_vertices_as_named() {
    let t = facing_triangle(0.0, 1.0, 2.0);
    let (a, b, c) = (t.vert0, t.vert1, t.vert2);
    assert_eq!(t.reorder(VerticesOrder::ABC), Triangle::Construct(a, b, c));
    assert_eq!(t.reorder(VerticesOrder::ACB), Triangle::Construct(a, c, b));
    assert_eq!(t.reorder(VerticesOrder::BAC), Triangle::Construct(b, a, c));
    assert_eq!(t.reorder(VerticesOrder::BCA), Triangle::Construct(b, c, a));
    assert_eq!(t.reorder(VerticesOrder::CAB), Triangle::Construct(c, a, b));
    assert_eq!(t.reorder(VerticesOrder::CBA), Triangle::Construct(c, b, a));
}

#[test]
fn counter_clockwise_faces_the_viewer() {
    let front = facing_triangle(0.5, 0.5, 0.5);
    assert!(!cull_triangle_backface(&front));
    let back = front.reorder(VerticesOrder::ACB);
    assert!(cull_triangle_backface(&back));
    assert!(matches!(clip_cull_triangle(&back), ClipResult::Zero));
}

#[test]
fn an_edge_on_triangle_is_culled() {
    let flat = Triangle::Construct(
        corner(-1.0, 0.0, 0.5, 2.0),
        corner(0.0, 0.0, 0.5, 2.0),
        corner(1.0, 0.0, 0.5, 2.0),
    );
    assert!(cull_triangle_backface(&flat));
}

#[test]
fn a_visible_triangle_comes_out_unchanged() {
    let tri = facing_triangle(0.0, 0.5, 2.0);
    assert!(!cull_triangle_view_frustum(&tri));
    match clip_cull_triangle(&tri) {
        ClipResult::One(out) => assert_eq!(out, tri),
        other => panic!("expected one triangle, got {:?}", other),
    }
}

#[test]
fn one_vertex_behind_gives_two_triangles() {
    // vert0 is behind; the plane is met halfway along both of its edges.
    let tri = facing_triangle(-1.0, 1.0, 1.0);
    let (a, b) = match clip_cull_triangle(&tri) {
        ClipResult::Two(pair) => pair,
        other => panic!("expected two triangles, got {:?}", other),
    };
    let p1 = Vertex {
        position: Vec4::new(q(0.0), q(-1.0), q(0.0), q(2.0)),
        normal: Vec3::new(q(0.0), q(0.0), q(1.0)),
        color: Vec3::new(q(0.0), q(-1.0), q(0.0)),
        uv: Vec2::new(q(0.0), q(-1.0)),
    };
    let p2 = Vertex {
        position: Vec4::new(q(-0.5), q(0.0), q(0.0), q(2.0)),
        normal: Vec3::new(q(0.0), q(0.0), q(1.0)),
        color: Vec3::new(q(-0.5), q(0.0), q(0.0)),
        uv: Vec2::new(q(-0.5), q(0.0)),
    };
    assert_eq!(a, Triangle::Construct(p1, tri.vert1, tri.vert2));
    assert_eq!(b, Triangle::Construct(p1, p2, tri.vert2));
}

#[test]
fn each_single_vertex_behind_is_relabeled_by_a_rotation() {
    let second = facing_triangle(1.0, -1.0, 1.0);
    match clip_cull_triangle(&second) {
        ClipResult::Two((a, b)) => {
            assert_eq!(a.vert1, second.vert2);
            assert_eq!(a.vert2, second.vert0);
            assert_eq!(b.vert2, second.vert0);
            assert_eq!(a.vert0, b.vert0);
            assert_eq!(depths(&a), [q(0.0), q(1.0), q(1.0)]);
            assert_eq!(depths(&b), [q(0.0), q(0.0), q(1.0)]);
            // Halfway from vert1 toward vert2 and toward vert0.
            assert_eq!(a.vert0.position, Vec4::new(q(0.5), q(0.0), q(0.0), q(2.0)));
            assert_eq!(b.vert1.position, Vec4::new(q(0.0), q(-1.0), q(0.0), q(2.0)));
        }
        other => panic!("expected two triangles, got {:?}", other),
    }
    let third = facing_triangle(1.0, 1.0, -1.0);
    match clip_cull_triangle(&third) {
        ClipResult::Two((a, b)) => {
            assert_eq!(a.vert1, third.vert0);
            assert_eq!(a.vert2, third.vert1);
            assert_eq!(b.vert2, third.vert1);
            assert_eq!(depths(&a), [q(0.0), q(1.0), q(1.0)]);
            assert_eq!(depths(&b), [q(0.0), q(0.0), q(1.0)]);
        }
        other => panic!("expected two triangles, got {:?}", other),
    }
}

#[test]
fn two_vertices_behind_give_one_triangle() {
    let tri = facing_triangle(-1.0, -3.0, 1.0);
    let out = match clip_cull_triangle(&tri) {
        ClipResult::One(out) => out,
        other => panic!("expected one triangle, got {:?}", other),
    };
    assert_eq!(out.vert2, tri.vert2);
    assert_eq!(depths(&out), [q(0.0), q(0.0), q(1.0)]);
    // Halfway from vert0 and three quarters of the way from vert1.
    assert_eq!(out.vert0.position, Vec4::new(q(-0.5), q(0.0), q(0.0), q(2.0)));
    assert_eq!(out.vert1.position, Vec4::new(q(0.25), q(0.5), q(0.0), q(2.0)));
    assert_eq!(out.vert1.uv, Vec2::new(q(0.25), q(0.5)));
}

#[test]
fn each_pair_behind_keeps_the_vertex_in_front_last() {
    let first_in_front = facing_triangle(1.0, -1.0, -1.0);
    match clip_cull_triangle(&first_in_front) {
        ClipResult::One(out) => {
            assert_eq!(out.vert2, first_in_front.vert0);
            assert_eq!(depths(&out), [q(0.0), q(0.0), q(1.0)]);
        }
        other => panic!("expected one triangle, got {:?}", other),
    }
    let second_in_front = facing_triangle(-1.0, 1.0, -1.0);
    match clip_cull_triangle(&second_in_front) {
        ClipResult::One(out) => {
            assert_eq!(out.vert2, second_in_front.vert1);
            assert_eq!(depths(&out), [q(0.0), q(0.0), q(1.0)]);
        }
        other => panic!("expected one triangle, got {:?}", other),
    }
}

#[test]
fn clipped_vertices_lie_on_the_plane_whatever_the_rounding() {
    let tri = Triangle::Construct(
        corner(-1.0, -1.0, -1.0 / 3.0, 2.0),
        corner(1.0, -1.0, 0.7, 2.0),
        corner(0.0, 1.0, 1.0 / 7.0, 2.0),
    );
    match clip_cull_triangle(&tri) {
        ClipResult::Two((a, b)) => {
            assert_eq!(a.vert0.position.z, Fixed::zero());
            assert_eq!(b.vert0.position.z, Fixed::zero());
            assert_eq!(b.vert1.position.z, Fixed::zero());
            for t in [a, b] {
                for z in depths(&t) {
                    assert!(!z.is_negative());
                }
            }
        }
        other => panic!("expected two triangles, got {:?}", other),
    }
}

#[test]
fn a_triangle_behind_the_near_plane_is_dropped() {
    let tri = facing_triangle(-0.5, -1.0, -0.25);
    assert!(cull_triangle_view_frustum(&tri));
    assert!(matches!(clip_cull_triangle(&tri), ClipResult::Zero));
}

#[test]
fn a_triangle_beyond_one_frustum_plane_is_dropped() {
    let shifts = [
        (5.0, 0.0, 0.5),
        (-5.0, 0.0, 0.5),
        (0.0, 5.0, 0.5),
        (0.0, -5.0, 0.5),
        (0.0, 0.0, 3.0),
    ];
    for (dx, dy, z) in shifts {
        let tri = Triangle::Construct(
            corner(-1.0 + dx, -1.0 + dy, z, 2.0),
            corner(1.0 + dx, -1.0 + dy, z, 2.0),
            corner(0.0 + dx, 1.0 + dy, z, 2.0),
        );
        assert!(cull_triangle_view_frustum(&tri));
        assert!(matches!(clip_cull_triangle(&tri), ClipResult::Zero));
    }
}

#[test]
fn a_triangle_that_only_partly_leaves_the_frustum_is_kept() {
    let tri = Triangle::Construct(
        corner(-5.0, -1.0, 0.5, 2.0),
        corner(1.0, -1.0, 0.5, 2.0),
        corner(0.0, 5.0, 0.5, 2.0),
    );
    assert!(!cull_triangle_view_frustum(&tri));
    match clip_cull_triangle(&tri) {
        ClipResult::One(out) => assert_eq!(out, tri),
        other => panic!("expected one triangle, got {:?}", other),
    }
}

#[test]
fn the_split_functions_cut_the_edges_they_are_given() {
    let tri = facing_triangle(-1.0, 1.0, 3.0);
    let (a, b) = clip_triangle_two(&tri);
    assert_eq!(a.vert0.position, Vec4::new(q(0.0), q(-1.0), q(0.0), q(2.0)));
    assert_eq!(b.vert1.position, Vec4::new(q(-0.75), q(-0.5), q(0.0), q(2.0)));
    assert_eq!(a.vert1, tri.vert1);
    assert_eq!(a.vert2, tri.vert2);
    assert_eq!(b.vert0, a.vert0);
    assert_eq!(b.vert2, tri.vert2);

    let tip = facing_triangle(-1.0, -1.0, 1.0);
    let one = clip_triangle_one(&tip);
    assert_eq!(one.vert0.position, Vec4::new(q(-0.5), q(0.0), q(0.0), q(2.0)));
    assert_eq!(one.vert1.position, Vec4::new(q(0.5), q(0.0), q(0.0), q(2.0)));
    assert_eq!(one.vert2, tip.vert2);
}

#[test]
fn interpolation_alone_already_reaches_the_plane_up_to_rounding() {
    let from = corner(-1.0, -1.0, -1.0 / 3.0, 2.0);
    let to = corner(1.0, -1.0, 0.7, 2.0);
    let alpha = -from.position.z / (to.position.z - from.position.z);
    let z = Lerp(from, to, alpha).position.z.raw();
    let span = to.position.z.raw() - from.position.z.raw();
    assert!(z <= 0);
    assert!((-z as i128) * 4294967296 < span as i128 + 4294967296);
}
