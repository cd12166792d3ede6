//! Culling and near-plane clipping of triangles in homogeneous clip space.
//!
//! A triangle faces the viewer when its vertices run counter-clockwise as seen
//! along the view direction `(0, 0, -1)`. A vertex lies behind the near plane
//! when its clip-space `z` is negative.
use vstd::prelude::*;
use crate::fixed::fx_div;
use crate::fixed::fx_mul;
use crate::fixed::Fixed;
use crate::geometry::Triangle;
use crate::geometry::Vertex;
use crate::geometry::VerticesOrder;
use crate::utils::lerp_spec;
use crate::utils::span_fits;
use crate::utils::Lerp;
use crate::vector::Vec3;
use crate::vector::Vec4;

verus! {

/// What clipping leaves of a triangle.
#[derive(Clone, Copy, Debug)]
pub enum ClipResult {
    /// Nothing: the triangle was culled or lies wholly behind the near plane.
    Zero,
    /// One triangle: the triangle itself, or its tip in front of the plane.
    One(Triangle),
    /// The two triangles that cover a triangle with one corner cut off.
    Two((Triangle, Triangle)),
}

/// The direction in which the viewer looks.
pub open spec fn view_direction_spec() -> Vec3 {
    Vec3::from_ints_spec(0, 0, -1)
}

/// The normal of the face: the cross product of the edges that leave `vert0`.
pub open spec fn face_normal_spec(tri: Triangle) -> Vec3 {
    let origin = tri.vert0.position.xyz_spec();
    tri.vert1.position.xyz_spec().minus(origin).cross_spec(
        tri.vert2.position.xyz_spec().minus(origin),
    )
}

/// Whether the triangle faces away from the viewer or is seen edge-on.
pub open spec fn is_backface(tri: Triangle) -> bool {
    face_normal_spec(tri).dot_spec(view_direction_spec()).raw >= 0
}

/// Whether all three vertices lie beyond one and the same of the six planes
/// `x <= w`, `x >= -w`, `y <= w`, `y >= -w`, `z <= w`, `z >= 0`.
pub open spec fn outside_frustum(tri: Triangle) -> bool {
    let p0 = tri.vert0.position;
    let p1 = tri.vert1.position;
    let p2 = tri.vert2.position;
    ||| p0.x.raw > p0.w.raw && p1.x.raw > p1.w.raw && p2.x.raw > p2.w.raw
    ||| p0.x.raw < p0.w.negated().raw && p1.x.raw < p1.w.negated().raw && p2.x.raw
        < p2.w.negated().raw
    ||| p0.y.raw > p0.w.raw && p1.y.raw > p1.w.raw && p2.y.raw > p2.w.raw
    ||| p0.y.raw < p0.w.negated().raw && p1.y.raw < p1.w.negated().raw && p2.y.raw
        < p2.w.negated().raw
    ||| p0.z.raw > p0.w.raw && p1.z.raw > p1.w.raw && p2.z.raw > p2.w.raw
    ||| p0.z.raw < 0 && p1.z.raw < 0 && p2.z.raw < 0
}

/// Whether the vertex lies behind the near plane.
pub open spec fn behind(v: Vertex) -> bool {
    v.position.z.raw < 0
}

/// How far along the edge from `from` to `to` the near plane is met:
/// `-from.z / (to.z - from.z)`.
pub open spec fn crossing_parameter_spec(from: Vertex, to: Vertex) -> Fixed {
    from.position.z.negated().over(to.position.z.minus(from.position.z))
}

/// The vertex where the edge from `from` to `to` meets the near plane: every
/// attribute is interpolated at the crossing parameter, and the depth is set to
/// the plane itself, so that rounding cannot leave the new vertex behind it.
pub open spec fn crossing_spec(from: Vertex, to: Vertex) -> Vertex {
    let p = from.plus(to.minus(from).scaled(crossing_parameter_spec(from, to)));
    Vertex { position: Vec4 { z: Fixed::zero_spec(), ..p.position }, ..p }
}

/// The two triangles left of a triangle whose `vert0` alone is behind the near
/// plane: with `p1` and `p2` the crossings of the edges toward `vert1` and
/// `vert2`, they are `p1, vert1, vert2` and `p1, p2, vert2`.
pub open spec fn clip_two_spec(tri: Triangle) -> (Triangle, Triangle) {
    let p1 = crossing_spec(tri.vert0, tri.vert1);
    let p2 = crossing_spec(tri.vert0, tri.vert2);
    (
        Triangle { vert0: p1, vert1: tri.vert1, vert2: tri.vert2 },
        Triangle { vert0: p1, vert1: p2, vert2: tri.vert2 },
    )
}

/// The triangle left of a triangle whose `vert2` alone is in front of the near
/// plane: with `p0` and `p1` the crossings of the edges from `vert0` and
/// `vert1` toward `vert2`, it is `p0, p1, vert2`.
pub open spec fn clip_one_spec(tri: Triangle) -> Triangle {
    let p0 = crossing_spec(tri.vert0, tri.vert2);
    let p1 = crossing_spec(tri.vert1, tri.vert2);
    Triangle { vert0: p0, vert1: p1, vert2: tri.vert2 }
}

/// The order that lists the vertices so that the clipped corner comes first
/// (one vertex behind) or the kept corner comes last (two behind). It is
/// always a rotation, so the winding stays.
pub open spec fn near_plane_order_spec(tri: Triangle) -> VerticesOrder {
    let b0 = behind(tri.vert0);
    let b1 = behind(tri.vert1);
    let b2 = behind(tri.vert2);
    if b0 && b1 {
        VerticesOrder::ABC
    } else if b0 && b2 {
        VerticesOrder::CAB
    } else if b1 && b2 {
        VerticesOrder::BCA
    } else if b0 {
        VerticesOrder::ABC
    } else if b1 {
        VerticesOrder::BCA
    } else if b2 {
        VerticesOrder::CAB
    } else {
        VerticesOrder::ABC
    }
}

/// How many vertices lie behind the near plane.
pub open spec fn count_behind(tri: Triangle) -> nat {
    let c0: nat = if behind(tri.vert0) { 1 } else { 0 };
    let c1: nat = if behind(tri.vert1) { 1 } else { 0 };
    let c2: nat = if behind(tri.vert2) { 1 } else { 0 };
    c0 + c1 + c2
}

/// What is left of a triangle in front of the near plane, whatever it faces.
pub open spec fn near_clip_spec(tri: Triangle) -> ClipResult {
    let relabeled = tri.reorder_spec(near_plane_order_spec(tri));
    if count_behind(tri) == 0 {
        ClipResult::One(tri)
    } else if count_behind(tri) == 1 {
        ClipResult::Two(clip_two_spec(relabeled))
    } else if count_behind(tri) == 2 {
        ClipResult::One(clip_one_spec(relabeled))
    } else {
        ClipResult::Zero
    }
}

/// What the clipper returns: nothing for a triangle that faces away or lies
/// wholly beyond one frustum plane, else what the near plane leaves of it.
pub open spec fn clip_spec(tri: Triangle) -> ClipResult {
    if is_backface(tri) || outside_frustum(tri) {
        ClipResult::Zero
    } else {
        near_clip_spec(tri)
    }
}

impl ClipResult {
    /// How many triangles the result holds.
    pub open spec fn count(self) -> nat {
        match self {
            ClipResult::Zero => 0,
            ClipResult::One(_) => 1,
            ClipResult::Two(_) => 2,
        }
    }
}

/// Tells whether the whole triangle lies beyond one frustum plane.
pub fn cull_triangle_view_frustum(tri: &Triangle) -> (r: bool)
    ensures
        r == outside_frustum(*tri),
{
    let p0 = tri.vert0.position;
    let p1 = tri.vert1.position;
    let p2 = tri.vert2.position;
    let n0 = core::ops::Neg::neg(p0.w);
    let n1 = core::ops::Neg::neg(p1.w);
    let n2 = core::ops::Neg::neg(p2.w);
    if p0.x.gt(p0.w) && p1.x.gt(p1.w) && p2.x.gt(p2.w) {
        return true;
    }
    if p0.x.lt(n0) && p1.x.lt(n1) && p2.x.lt(n2) {
        return true;
    }
    if p0.y.gt(p0.w) && p1.y.gt(p1.w) && p2.y.gt(p2.w) {
        return true;
    }
    if p0.y.lt(n0) && p1.y.lt(n1) && p2.y.lt(n2) {
        return true;
    }
    if p0.z.gt(p0.w) && p1.z.gt(p1.w) && p2.z.gt(p2.w) {
        return true;
    }
    if p0.z.is_negative() && p1.z.is_negative() && p2.z.is_negative() {
        return true;
    }
    false
}

/// Tells whether the triangle faces away from the viewer.
pub fn cull_triangle_backface(tri: &Triangle) -> (r: bool)
    ensures
        r == is_backface(*tri),
{
    let origin = tri.vert0.position.xyz();
    let normal = (tri.vert1.position.xyz() - origin).cross(tri.vert2.position.xyz() - origin);
    let view_dir = Vec3::from_ints(0, 0, -1);
    !normal.dot(view_dir).is_negative()
}

/// Cuts the edge from a vertex behind the near plane to one in front of it.
pub fn clip_edge(from: Vertex, to: Vertex) -> (r: Vertex)
    requires
        behind(from),
        !behind(to),
    ensures
        r == crossing_spec(from, to),
{
    let alpha = core::ops::Neg::neg(from.position.z) / (to.position.z - from.position.z);
    let mut p = Lerp(from, to, alpha);
    p.position.z = Fixed::zero();
    p
}

/// Splits a triangle whose first vertex alone is behind the near plane.
pub fn clip_triangle_two(tri: &Triangle) -> (r: (Triangle, Triangle))
    requires
        behind(tri.vert0),
        !behind(tri.vert1),
        !behind(tri.vert2),
    ensures
        r == clip_two_spec(*tri),
{
    let v0a = clip_edge(tri.vert0, tri.vert1);
    let v0b = clip_edge(tri.vert0, tri.vert2);

    let mut result_a = *tri;
    let mut result_b = *tri;

    result_a.vert0 = v0a;

    result_b.vert0 = v0a;
    result_b.vert1 = v0b;

    (result_a, result_b)
}

/// Cuts a triangle whose last vertex alone is in front of the near plane.
pub fn clip_triangle_one(tri: &Triangle) -> (r: Triangle)
    requires
        behind(tri.vert0),
        behind(tri.vert1),
        !behind(tri.vert2),
    ensures
        r == clip_one_spec(*tri),
{
    let v0 = clip_edge(tri.vert0, tri.vert2);
    let v1 = clip_edge(tri.vert1, tri.vert2);
    let v2 = tri.vert2;

    Triangle { vert0: v0, vert1: v1, vert2: v2 }
}

/// Culls a clip-space triangle and clips it against the near plane.
pub fn clip_cull_triangle(tri: &Triangle) -> (r: ClipResult)
    ensures
        r == clip_spec(*tri),
{
    if cull_triangle_backface(tri) {
        return ClipResult::Zero;
    }
    if cull_triangle_view_frustum(tri) {
        ClipResult::Zero
    } else {
        if tri.vert0.position.z.is_negative() {
            if tri.vert1.position.z.is_negative() {
                ClipResult::One(clip_triangle_one(tri))
            } else if tri.vert2.position.z.is_negative() {
                ClipResult::One(clip_triangle_one(&tri.reorder(VerticesOrder::CAB)))
            } else {
                ClipResult::Two(clip_triangle_two(tri))
            }
        } else if tri.vert1.position.z.is_negative() {
            if tri.vert2.position.z.is_negative() {
                ClipResult::One(clip_triangle_one(&tri.reorder(VerticesOrder::BCA)))
            } else {
                ClipResult::Two(clip_triangle_two(&tri.reorder(VerticesOrder::BCA)))
            }
        } else if tri.vert2.position.z.is_negative() {
            ClipResult::Two(clip_triangle_two(&tri.reorder(VerticesOrder::CAB)))
        } else {
            ClipResult::One(*tri)
        }
    }
}

/// Whether the vertex lies within all six frustum planes.
pub open spec fn vertex_inside_frustum(v: Vertex) -> bool {
    let p = v.position;
    &&& p.w.negated().raw <= p.x.raw <= p.w.raw
    &&& p.w.negated().raw <= p.y.raw <= p.w.raw
    &&& 0 <= p.z.raw <= p.w.raw
}

/// Whether no vertex of the triangle lies behind the near plane.
pub open spec fn in_front(tri: Triangle) -> bool {
    !behind(tri.vert0) && !behind(tri.vert1) && !behind(tri.vert2)
}

/// Whether the vertex lies exactly on the near plane.
pub open spec fn on_near_plane(v: Vertex) -> bool {
    v.position.z.raw == 0
}

/// A triangle that faces the viewer and has all its vertices inside the
/// frustum comes out of the clipper as the one triangle it is.
pub proof fn lemma_visible_triangle_is_kept(tri: Triangle)
    requires
        !is_backface(tri),
        vertex_inside_frustum(tri.vert0),
        vertex_inside_frustum(tri.vert1),
        vertex_inside_frustum(tri.vert2),
    ensures
        clip_spec(tri) == ClipResult::One(tri),
{
}

/// A triangle that survives culling with exactly one vertex behind the near
/// plane comes out as two triangles. The vertices that clipping adds lie on the
/// near plane, the others are the two vertices that were in front, and nothing
/// of the output is behind the plane.
pub proof fn lemma_one_behind_gives_two(tri: Triangle)
    requires
        !is_backface(tri),
        !outside_frustum(tri),
        count_behind(tri) == 1,
    ensures
        clip_spec(tri) is Two,
        ({
            let (a, b) = clip_spec(tri)->Two_0;
            let kept = tri.reorder_spec(near_plane_order_spec(tri));
            &&& on_near_plane(a.vert0)
            &&& on_near_plane(b.vert0)
            &&& on_near_plane(b.vert1)
            &&& behind(kept.vert0)
            &&& a.vert1 == kept.vert1
            &&& a.vert2 == kept.vert2
            &&& b.vert2 == kept.vert2
            &&& in_front(a)
            &&& in_front(b)
        }),
{
}

/// A triangle that survives culling with exactly two vertices behind the near
/// plane comes out as one triangle. Its first two vertices are added by
/// clipping and lie on the near plane, its third is the vertex that was in
/// front, and nothing of the output is behind the plane.
pub proof fn lemma_two_behind_gives_one(tri: Triangle)
    requires
        !is_backface(tri),
        !outside_frustum(tri),
        count_behind(tri) == 2,
    ensures
        clip_spec(tri) is One,
        ({
            let t = clip_spec(tri)->One_0;
            let kept = tri.reorder_spec(near_plane_order_spec(tri));
            &&& on_near_plane(t.vert0)
            &&& on_near_plane(t.vert1)
            &&& behind(kept.vert0)
            &&& behind(kept.vert1)
            &&& t.vert2 == kept.vert2
            &&& in_front(t)
        }),
{
}

/// A triangle with all three vertices behind the near plane, or with all three
/// beyond one and the same frustum plane, is dropped.
pub proof fn lemma_hidden_triangle_is_dropped(tri: Triangle)
    requires
        count_behind(tri) == 3 || outside_frustum(tri),
    ensures
        clip_spec(tri) == ClipResult::Zero,
{
}

/// The relabeling that clipping applies never turns the winding around.
pub proof fn lemma_relabeling_keeps_winding(tri: Triangle)
    ensures
        near_plane_order_spec(tri).keeps_winding(),
{
}

/// No triangle that leaves the clipper has a vertex behind the near plane.
pub proof fn lemma_clip_output_in_front(tri: Triangle)
    ensures
        match clip_spec(tri) {
            ClipResult::Zero => true,
            ClipResult::One(t) => in_front(t),
            ClipResult::Two((a, b)) => in_front(a) && in_front(b),
        },
{
}

/// Interpolation alone already brings a new vertex to the near plane up to
/// rounding: before its depth is set to the plane, it lies at or behind the
/// plane by less than `(span + 1) / 2^32`, where `span` is the depth that the
/// clipped edge covers.
pub proof fn lemma_crossing_depth_is_near_plane(from: Vertex, to: Vertex)
    requires
        behind(from),
        !behind(to),
        span_fits(from.position.z, to.position.z),
    ensures
        ({
            let z = lerp_spec(from, to, crossing_parameter_spec(from, to)).position.z.raw;
            let span = to.position.z.raw - from.position.z.raw;
            z <= 0 && -z * 4294967296 < span + 4294967296
        }),
{
    reveal(fx_div);
    reveal(fx_mul);
    let one: int = 4294967296;
    let d: int = to.position.z.raw - from.position.z.raw;
    let n: int = -from.position.z.raw;
    let x: int = n * one;
    let q: int = x / d;
    vstd::arithmetic::div_mod::lemma_fundamental_div_mod(x, d);
    vstd::arithmetic::div_mod::lemma_mod_bound(x, d);
    let r: int = x % d;
    assert(x == d * q + r);
    assert(0 <= q <= one) by (nonlinear_arith)
        requires
            x == d * q + r,
            0 <= r < d,
            0 <= x <= d * one,
            one > 0,
    ;
    assert(crossing_parameter_spec(from, to).raw == q);
    let p: int = d * q;
    assert(0 <= p) by (nonlinear_arith)
        requires
            p == d * q,
            d > 0,
            q >= 0,
    ;
    let m: int = p / one;
    assert(to.position.z.minus(from.position.z).times(crossing_parameter_spec(from, to)).raw == m);
}

} // verus!
