//! Interpolation, edge functions, pixel addressing and colour packing.
use vstd::prelude::*;
use vstd::std_specs::ops::AddSpec;
use vstd::std_specs::ops::DivSpec;
use vstd::std_specs::ops::MulSpec;
use vstd::std_specs::ops::SubSpec;
use crate::fixed::fx_mul;
use crate::fixed::Fixed;
use crate::geometry::Vertex;
use crate::vector::Mat4;
use crate::vector::Vec2;
use crate::vector::Vec3;
use crate::vector::Vec4;

verus! {

/// Twice the signed area of the triangle `v0`, `v1`, `p`:
/// `(p.x - v0.x)(v1.y - v0.y) - (p.y - v0.y)(v1.x - v0.x)`.
pub open spec fn edge_spec(v0: Vec2, v1: Vec2, p: Vec2) -> Fixed {
    p.x.minus(v0.x).times(v1.y.minus(v0.y)).minus(p.y.minus(v0.y).times(v1.x.minus(v0.x)))
}

/// Evaluates the edge function of `v0`, `v1` at `p`.
pub fn edge_function(v0: Vec2, v1: Vec2, p: Vec2) -> (r: Fixed)
    ensures
        r == edge_spec(v0, v1, p),
{
    (p.x - v0.x) * (v1.y - v0.y) - (p.y - v0.y) * (v1.x - v0.x)
}

/// The three barycentric weights of `point` in the triangle `v0`, `v1`, `v2`
/// whose doubled signed area is `area`. The third weight is what the first two
/// leave of one.
pub open spec fn weights_spec(point: Vec2, v0: Vec2, v1: Vec2, v2: Vec2, area: Fixed) -> Vec3 {
    let m0 = edge_spec(point, v1, v2).over(area);
    let m1 = edge_spec(point, v2, v0).over(area);
    Vec3 { x: m0, y: m1, z: Fixed::one_spec().minus(m0).minus(m1) }
}

/// The weights of `point` if the triangle has an area and holds the point:
/// all three weights are then at least zero.
pub open spec fn barycentric_spec(point: Vec2, v0: Vec2, v1: Vec2, v2: Vec2, area: Fixed) -> Option<
    Vec3,
> {
    let m = weights_spec(point, v0, v1, v2, area);
    if area.raw != 0 && m.x.raw >= 0 && m.y.raw >= 0 && m.z.raw >= 0 {
        Some(m)
    } else {
        None
    }
}

/// Finds the barycentric weights of a point, if the triangle holds it.
#[allow(non_snake_case)]
pub fn Barycentric_Coordinates(point: Vec2, v0: Vec2, v1: Vec2, v2: Vec2, area: Fixed) -> (r:
    Option<Vec3>)
    ensures
        r == barycentric_spec(point, v0, v1, v2, area),
{
    if area.is_zero() {
        return None;
    }
    let m0 = edge_function(point, v1, v2) / area;
    let m1 = edge_function(point, v2, v0) / area;
    let m2 = Fixed::one() - m0 - m1;

    if !m0.is_negative() && !m1.is_negative() && !m2.is_negative() {
        Some(Vec3::new(m0, m1, m2))
    } else {
        None
    }
}

/// `start + (end - start) * alpha`.
pub open spec fn lerp_spec<T>(start: T, end: T, alpha: Fixed) -> T where
    T: core::ops::Sub<Output = T> + core::ops::Mul<Fixed, Output = T> + core::ops::Add<
        Output = T,
    > + Copy,
 {
    start.add_spec(end.sub_spec(start).mul_spec(alpha))
}

/// Interpolates between two values of any type that can be subtracted, scaled
/// and added.
#[allow(non_snake_case)]
pub fn Lerp<T>(start: T, end: T, alpha: Fixed) -> (r: T) where
    T: core::ops::Sub<Output = T> + core::ops::Mul<Fixed, Output = T> + core::ops::Add<
        Output = T,
    > + Copy,

    requires
        T::obeys_sub_spec(),
        <T as MulSpec<Fixed>>::obeys_mul_spec(),
        T::obeys_add_spec(),
        end.sub_req(start),
        end.sub_spec(start).mul_req(alpha),
        start.add_req(end.sub_spec(start).mul_spec(alpha)),
    ensures
        r == lerp_spec(start, end, alpha),
{
    start + (end - start) * alpha
}

/// Whether `end - start` can be represented, so that the difference does not
/// saturate.
pub open spec fn span_fits(start: Fixed, end: Fixed) -> bool {
    i64::MIN <= end.raw - start.raw <= i64::MAX
}

/// `span_fits` for each of two components.
pub open spec fn span_fits2(start: Vec2, end: Vec2) -> bool {
    span_fits(start.x, end.x) && span_fits(start.y, end.y)
}

/// `span_fits` for each of three components.
pub open spec fn span_fits3(start: Vec3, end: Vec3) -> bool {
    span_fits(start.x, end.x) && span_fits(start.y, end.y) && span_fits(start.z, end.z)
}

/// `span_fits` for each of four components.
pub open spec fn span_fits4(start: Vec4, end: Vec4) -> bool {
    span_fits(start.x, end.x) && span_fits(start.y, end.y) && span_fits(start.z, end.z)
        && span_fits(start.w, end.w)
}

/// `span_fits` for every attribute of a vertex.
pub open spec fn vertex_span_fits(start: Vertex, end: Vertex) -> bool {
    &&& span_fits4(start.position, end.position)
    &&& span_fits3(start.normal, end.normal)
    &&& span_fits3(start.color, end.color)
    &&& span_fits2(start.uv, end.uv)
}

/// Interpolating a number with itself gives that number; at parameter zero the
/// interpolation is at its start; at parameter one it is at its end, provided
/// the difference of the two can be represented.
pub proof fn lemma_lerp_scalar(a: Fixed, b: Fixed, t: Fixed)
    ensures
        lerp_spec(a, a, t) == a,
        lerp_spec(a, b, Fixed::zero_spec()) == a,
        span_fits(a, b) ==> lerp_spec(a, b, Fixed::one_spec()) == b,
{
    reveal(fx_mul);
    assert(0 * t.raw == 0);
    assert((b.raw - a.raw) * 0 == 0);
}

/// Interpolating a vertex with itself gives that vertex, whatever the
/// parameter.
pub proof fn lemma_lerp_same_endpoints(a: Vertex, t: Fixed)
    ensures
        lerp_spec(a, a, t) == a,
{
    lemma_lerp_scalar(a.position.x, a.position.x, t);
    lemma_lerp_scalar(a.position.y, a.position.y, t);
    lemma_lerp_scalar(a.position.z, a.position.z, t);
    lemma_lerp_scalar(a.position.w, a.position.w, t);
    lemma_lerp_scalar(a.normal.x, a.normal.x, t);
    lemma_lerp_scalar(a.normal.y, a.normal.y, t);
    lemma_lerp_scalar(a.normal.z, a.normal.z, t);
    lemma_lerp_scalar(a.color.x, a.color.x, t);
    lemma_lerp_scalar(a.color.y, a.color.y, t);
    lemma_lerp_scalar(a.color.z, a.color.z, t);
    lemma_lerp_scalar(a.uv.x, a.uv.x, t);
    lemma_lerp_scalar(a.uv.y, a.uv.y, t);
}

/// At parameter zero the interpolation of two vertices is the first.
pub proof fn lemma_lerp_at_zero(a: Vertex, b: Vertex)
    ensures
        lerp_spec(a, b, Fixed::zero_spec()) == a,
{
    let t = Fixed::zero_spec();
    lemma_lerp_scalar(a.position.x, b.position.x, t);
    lemma_lerp_scalar(a.position.y, b.position.y, t);
    lemma_lerp_scalar(a.position.z, b.position.z, t);
    lemma_lerp_scalar(a.position.w, b.position.w, t);
    lemma_lerp_scalar(a.normal.x, b.normal.x, t);
    lemma_lerp_scalar(a.normal.y, b.normal.y, t);
    lemma_lerp_scalar(a.normal.z, b.normal.z, t);
    lemma_lerp_scalar(a.color.x, b.color.x, t);
    lemma_lerp_scalar(a.color.y, b.color.y, t);
    lemma_lerp_scalar(a.color.z, b.color.z, t);
    lemma_lerp_scalar(a.uv.x, b.uv.x, t);
    lemma_lerp_scalar(a.uv.y, b.uv.y, t);
}

/// At parameter one the interpolation of two vertices is the second, provided
/// the difference of every attribute can be represented.
pub proof fn lemma_lerp_at_one(a: Vertex, b: Vertex)
    requires
        vertex_span_fits(a, b),
    ensures
        lerp_spec(a, b, Fixed::one_spec()) == b,
{
    let t = Fixed::one_spec();
    lemma_lerp_scalar(a.position.x, b.position.x, t);
    lemma_lerp_scalar(a.position.y, b.position.y, t);
    lemma_lerp_scalar(a.position.z, b.position.z, t);
    lemma_lerp_scalar(a.position.w, b.position.w, t);
    lemma_lerp_scalar(a.normal.x, b.normal.x, t);
    lemma_lerp_scalar(a.normal.y, b.normal.y, t);
    lemma_lerp_scalar(a.normal.z, b.normal.z, t);
    lemma_lerp_scalar(a.color.x, b.color.x, t);
    lemma_lerp_scalar(a.color.y, b.color.y, t);
    lemma_lerp_scalar(a.color.z, b.color.z, t);
    lemma_lerp_scalar(a.uv.x, b.uv.x, t);
    lemma_lerp_scalar(a.uv.y, b.uv.y, t);
}

/// `b1 + (v - a1) * (b2 - b1) / (a2 - a1)`: where `v` lands when the range
/// from `a1` to `a2` is laid over the range from `b1` to `b2`.
pub open spec fn map_to_range_spec<T>(v: T, a1: T, a2: T, b1: T, b2: T) -> T where
    T: core::ops::Sub<Output = T> + core::ops::Div<Output = T> + core::ops::Mul<
        Output = T,
    > + core::ops::Add<Output = T> + Copy,
 {
    b1.add_spec(v.sub_spec(a1).mul_spec(b2.sub_spec(b1)).div_spec(a2.sub_spec(a1)))
}

/// Maps a value from one range to another.
pub fn map_to_range<T>(v: T, a1: T, a2: T, b1: T, b2: T) -> (r: T) where
    T: core::ops::Sub<Output = T> + core::ops::Div<Output = T> + core::ops::Mul<
        Output = T,
    > + core::ops::Add<Output = T> + Copy,

    requires
        T::obeys_sub_spec(),
        T::obeys_mul_spec(),
        T::obeys_div_spec(),
        T::obeys_add_spec(),
        v.sub_req(a1),
        b2.sub_req(b1),
        a2.sub_req(a1),
        v.sub_spec(a1).mul_req(b2.sub_spec(b1)),
        v.sub_spec(a1).mul_spec(b2.sub_spec(b1)).div_req(a2.sub_spec(a1)),
        b1.add_req(v.sub_spec(a1).mul_spec(b2.sub_spec(b1)).div_spec(a2.sub_spec(a1))),
    ensures
        r == map_to_range_spec(v, a1, a2, b1, b2),
{
    b1 + (v - a1) * (b2 - b1) / (a2 - a1)
}

/// Column and row of the pixel with index `p` in rows of `width` pixels.
#[verifier::opaque]
pub open spec fn index_to_coords_spec(p: int, width: int) -> (int, int)
    recommends
        width > 0,
{
    (p % width, p / width)
}

/// Finds the column and row of a pixel index.
pub fn index_to_coords(p: usize, width: usize) -> (r: (usize, usize))
    requires
        width > 0,
    ensures
        (r.0 as int, r.1 as int) == index_to_coords_spec(p as int, width as int),
{
    reveal(index_to_coords_spec);
    (p % width, p / width)
}

/// Index of the pixel in column `x` of row `y`, in rows of `width` pixels.
pub open spec fn coords_to_index_spec(x: int, y: int, width: int) -> int {
    x + y * width
}

/// Finds the index of a pixel from its column and row.
pub fn coords_to_index(x: usize, y: usize, width: usize) -> (r: usize)
    requires
        coords_to_index_spec(x as int, y as int, width as int) <= usize::MAX,
    ensures
        r == coords_to_index_spec(x as int, y as int, width as int),
{
    assert(y * width <= usize::MAX) by (nonlinear_arith)
        requires
            x + y * width <= usize::MAX,
            x >= 0,
    ;
    x + y * width
}

/// An index is found again from the coordinates it stands for, and
/// coordinates from their index.
pub proof fn lemma_index_coords_round_trip(x: int, y: int, width: int)
    requires
        0 <= x < width,
        0 <= y,
    ensures
        index_to_coords_spec(coords_to_index_spec(x, y, width), width) == (x, y),
        forall|p: int|
            0 <= p ==> (#[trigger] index_to_coords_spec(p, width) == (x, y) <==> p
                == coords_to_index_spec(x, y, width)),
{
    reveal(index_to_coords_spec);
    vstd::arithmetic::div_mod::lemma_fundamental_div_mod_converse(x + y * width, width, y, x);
    assert forall|p: int| 0 <= p implies (#[trigger] index_to_coords_spec(p, width) == (x, y) <==> p
        == coords_to_index_spec(x, y, width)) by {
        vstd::arithmetic::div_mod::lemma_fundamental_div_mod(p, width);
        if index_to_coords_spec(p, width) == (x, y) {
            assert(p == width * y + x);
            assert(width * y == y * width) by (nonlinear_arith);
        }
    }
}

/// The pixel with alpha `a`, red `r`, green `g` and blue `b`, from the highest
/// byte to the lowest.
pub open spec fn argb_spec(a: int, r: int, g: int, b: int) -> int {
    ((a * 256 + r) * 256 + g) * 256 + b
}

/// Packs four channels into one pixel.
pub fn to_argb8(a: u8, r: u8, g: u8, b: u8) -> (argb: u32)
    ensures
        argb == argb_spec(a as int, r as int, g as int, b as int),
{
    let mut argb: u32 = a as u32;
    argb = argb * 256 + r as u32;
    argb = argb * 256 + g as u32;
    argb = argb * 256 + b as u32;
    argb
}

/// Sets every entry of a buffer to one value.
pub fn clear_buffer<T>(buffer: &mut Vec<T>, value: T) where T: Copy
    ensures
        final(buffer)@.len() == old(buffer)@.len(),
        forall|i: int| 0 <= i < final(buffer)@.len() ==> final(buffer)@[i] == value,
{
    let n: usize = buffer.len();
    let mut i: usize = 0;
    while i < n
        invariant
            i <= n,
            buffer@.len() == n,
            forall|j: int| 0 <= j < i ==> buffer@[j] == value,
        decreases n - i,
    {
        buffer[i] = value;
        i = i + 1;
    }
}

/// The determinant of the 3x3 matrix cut from the 4x4 matrix `src` (stored by
/// columns, four entries each) by the index triples `r` and `c`, expanded
/// along its first line.
#[verifier::opaque]
pub open spec fn minor_spec(
    src: Seq<Fixed>,
    r0: int,
    r1: int,
    r2: int,
    c0: int,
    c1: int,
    c2: int,
) -> Fixed {
    src[4 * r0 + c0].times(
        src[4 * r1 + c1].times(src[4 * r2 + c2]).minus(src[4 * r2 + c1].times(src[4 * r1 + c2])),
    ).minus(
        src[4 * r0 + c1].times(
            src[4 * r1 + c0].times(src[4 * r2 + c2]).minus(
                src[4 * r2 + c0].times(src[4 * r1 + c2]),
            ),
        ),
    ).plus(
        src[4 * r0 + c2].times(
            src[4 * r1 + c0].times(src[4 * r2 + c1]).minus(
                src[4 * r2 + c0].times(src[4 * r1 + c1]),
            ),
        ),
    )
}

/// Computes a 3x3 minor of a 4x4 matrix given by its entries.
pub fn minor(src: &[Fixed; 16], r0: usize, r1: usize, r2: usize, c0: usize, c1: usize, c2: usize) -> (r:
    Fixed)
    requires
        r0 < 4,
        r1 < 4,
        r2 < 4,
        c0 < 4,
        c1 < 4,
        c2 < 4,
    ensures
        r == minor_spec(src@, r0 as int, r1 as int, r2 as int, c0 as int, c1 as int, c2 as int),
{
    reveal(minor_spec);
    src[4 * r0 + c0] * (src[4 * r1 + c1] * src[4 * r2 + c2] - src[4 * r2 + c1] * src[4 * r1 + c2])
        - src[4 * r0 + c1] * (src[4 * r1 + c0] * src[4 * r2 + c2] - src[4 * r2 + c0] * src[4 * r1
        + c2]) + src[4 * r0 + c2] * (src[4 * r1 + c0] * src[4 * r2 + c1] - src[4 * r2 + c0] * src[4
        * r1 + c1])
}

/// The sixteen signed minors of `src`, in the order of its entries.
pub open spec fn cofactor_entries_spec(src: Seq<Fixed>) -> Seq<Fixed> {
    seq![
        minor_spec(src, 1, 2, 3, 1, 2, 3),
        minor_spec(src, 1, 2, 3, 0, 2, 3).negated(),
        minor_spec(src, 1, 2, 3, 0, 1, 3),
        minor_spec(src, 1, 2, 3, 0, 1, 2).negated(),
        minor_spec(src, 0, 2, 3, 1, 2, 3).negated(),
        minor_spec(src, 0, 2, 3, 0, 2, 3),
        minor_spec(src, 0, 2, 3, 0, 1, 3).negated(),
        minor_spec(src, 0, 2, 3, 0, 1, 2),
        minor_spec(src, 0, 1, 3, 1, 2, 3),
        minor_spec(src, 0, 1, 3, 0, 2, 3).negated(),
        minor_spec(src, 0, 1, 3, 0, 1, 3),
        minor_spec(src, 0, 1, 3, 0, 1, 2).negated(),
        minor_spec(src, 0, 1, 2, 1, 2, 3).negated(),
        minor_spec(src, 0, 1, 2, 0, 2, 3),
        minor_spec(src, 0, 1, 2, 0, 1, 3).negated(),
        minor_spec(src, 0, 1, 2, 0, 1, 2),
    ]
}

/// The matrix of cofactors of `matrix`, which carries normals where `matrix`
/// carries positions.
pub open spec fn cofactor_spec(matrix: Mat4) -> Mat4 {
    Mat4::from_cols_array_spec(cofactor_entries_spec(matrix.to_cols_array_spec()))
}

/// Computes the matrix of cofactors.
pub fn cofactor(matrix: &Mat4) -> (r: Mat4)
    ensures
        r == cofactor_spec(*matrix),
{
    let src: [Fixed; 16] = matrix.to_cols_array();
    let dst: [Fixed; 16] = [
        minor(&src, 1, 2, 3, 1, 2, 3),
        core::ops::Neg::neg(minor(&src, 1, 2, 3, 0, 2, 3)),
        minor(&src, 1, 2, 3, 0, 1, 3),
        core::ops::Neg::neg(minor(&src, 1, 2, 3, 0, 1, 2)),
        core::ops::Neg::neg(minor(&src, 0, 2, 3, 1, 2, 3)),
        minor(&src, 0, 2, 3, 0, 2, 3),
        core::ops::Neg::neg(minor(&src, 0, 2, 3, 0, 1, 3)),
        minor(&src, 0, 2, 3, 0, 1, 2),
        minor(&src, 0, 1, 3, 1, 2, 3),
        core::ops::Neg::neg(minor(&src, 0, 1, 3, 0, 2, 3)),
        minor(&src, 0, 1, 3, 0, 1, 3),
        core::ops::Neg::neg(minor(&src, 0, 1, 3, 0, 1, 2)),
        core::ops::Neg::neg(minor(&src, 0, 1, 2, 1, 2, 3)),
        minor(&src, 0, 1, 2, 0, 2, 3),
        core::ops::Neg::neg(minor(&src, 0, 1, 2, 0, 1, 3)),
        minor(&src, 0, 1, 2, 0, 1, 2),
    ];
    assert(dst@ =~= cofactor_entries_spec(src@));
    Mat4::from_cols_array(&dst)
}

} // verus!
