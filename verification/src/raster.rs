//! From clipped triangles to pixels: viewport mapping, scan conversion, the
//! depth test and colour resolution.
//!
//! A frame is a colour buffer of packed ARGB pixels and a depth buffer of the
//! same length, both stored row after row from the top. Smaller depths are
//! nearer; `Fixed::max_value()` stands for a pixel nothing was drawn on.
use vstd::prelude::*;
use crate::clip::clip_cull_triangle;
use crate::clip::clip_spec;
use crate::clip::count_behind;
use crate::clip::ClipResult;
use crate::fixed::lemma_one_is_neutral;
use crate::fixed::Fixed;
use crate::fixed::HALF_RAW;
use crate::geometry::bounding_box_spec;
use crate::geometry::get_triangle_bounding_box_2d;
use crate::geometry::BoundingBox2D;
use crate::geometry::Triangle;
use crate::geometry::Vertex;
use crate::mesh::Mesh;
use crate::mesh::MeshView;
use crate::texture::Texture;
use crate::utils::argb_spec;
use crate::utils::barycentric_spec;
use crate::utils::cofactor;
use crate::utils::cofactor_spec;
use crate::utils::coords_to_index;
use crate::utils::edge_function;
use crate::utils::edge_spec;
use crate::utils::index_to_coords_spec;
use crate::utils::lemma_index_coords_round_trip;
use crate::utils::map_to_range;
use crate::utils::map_to_range_spec;
use crate::utils::to_argb8;
use crate::utils::Barycentric_Coordinates;
use crate::vector::Mat4;
use crate::vector::Vec2;
use crate::vector::Vec3;

verus! {

/// What a draw call shows.
#[derive(Clone, Copy, Debug, PartialEq, Eq, Structural)]
pub enum RenderType {
    /// Textured or lit vertex colours.
    Std,
    /// Depth as a shade of grey.
    Depth,
    /// As `Std`, with the triangles that clipping made painted in flat colours.
    ClipDebug,
    /// Drawn as `Std`.
    Wireframe,
}

/// A vertex after the perspective divide.
#[derive(Clone, Copy, Debug, PartialEq, Eq, Structural)]
pub struct ScreenVertex {
    /// Position in pixels, `y` growing downward.
    pub screen: Vec2,
    /// Depth in normalized device coordinates.
    pub depth: Fixed,
    /// The reciprocal of the clip-space `w`.
    pub inv_w: Fixed,
    /// The attributes, each multiplied by `inv_w`.
    pub attributes: Vertex,
}

/// What a triangle contributes to one pixel.
#[derive(Clone, Copy, Debug, PartialEq, Eq, Structural)]
pub struct Fragment {
    pub depth: Fixed,
    pub color: u32,
}

/// Raw value of each component of the unit vector along `(1, 1, 1)`, the
/// direction toward the light.
pub const LIGHT_RAW: i64 = 2479700525;

/// Raw value of the ambient light: one fifth, rounded up.
pub const AMBIENT_RAW: i64 = 858993460;

/// The vertex as the viewport sees it: `inv_w = 1 / w`, the position and every
/// attribute multiplied by it, and the screen position
/// `((x + 1) * width / 2, (1 - y) * height / 2)` of the divided position.
pub open spec fn viewport_map_spec(v: Vertex, viewport_size: Vec2) -> ScreenVertex {
    let inv_w = Fixed::one_spec().over(v.position.w);
    let ndc = v.position.scaled(inv_w);
    ScreenVertex {
        screen: Vec2 {
            x: map_to_range_spec(
                ndc.x,
                Fixed::from_int_spec(-1),
                Fixed::from_int_spec(1),
                Fixed::zero_spec(),
                viewport_size.x,
            ),
            y: map_to_range_spec(
                ndc.y.negated(),
                Fixed::from_int_spec(-1),
                Fixed::from_int_spec(1),
                Fixed::zero_spec(),
                viewport_size.y,
            ),
        },
        depth: ndc.z,
        inv_w,
        attributes: v.scaled(inv_w),
    }
}

/// Maps a clip-space vertex to the screen, unless its `w` is zero.
pub fn viewport_map(v: &Vertex, viewport_size: Vec2) -> (r: Option<ScreenVertex>)
    ensures
        r == if v.position.w.raw == 0 {
            None
        } else {
            Some(viewport_map_spec(*v, viewport_size))
        },
{
    if v.position.w.is_zero() {
        return None;
    }
    let inv_w = Fixed::one() / v.position.w;
    let ndc = v.position * inv_w;
    let attributes = *v * inv_w;
    let minus_one = Fixed::from_int(-1);
    let one = Fixed::from_int(1);
    let sx = map_to_range(ndc.x, minus_one, one, Fixed::zero(), viewport_size.x);
    let sy = map_to_range(
        core::ops::Neg::neg(ndc.y),
        minus_one,
        one,
        Fixed::zero(),
        viewport_size.y,
    );
    Some(ScreenVertex { screen: Vec2 { x: sx, y: sy }, depth: ndc.z, inv_w, attributes })
}

/// The part of the triangle's box that the viewport can show: nothing if the
/// box lies wholly outside the viewport, else the box cut down to
/// `[0, width - 1] x [0, height - 1]`.
pub open spec fn screen_box_spec(p0: Vec2, p1: Vec2, p2: Vec2, viewport_size: Vec2) -> Option<
    BoundingBox2D,
> {
    let bb = bounding_box_spec(p0, p1, p2);
    if bb.left.raw >= viewport_size.x.raw || bb.right.raw < 0 || bb.top.raw >= viewport_size.y.raw
        || bb.bot.raw < 0 {
        None
    } else {
        Some(
            BoundingBox2D {
                left: bb.left.max_of_spec(Fixed::zero_spec()),
                right: bb.right.min_spec(viewport_size.x.minus(Fixed::one_spec())),
                top: bb.top.max_of_spec(Fixed::zero_spec()),
                bot: bb.bot.min_spec(viewport_size.y.minus(Fixed::one_spec())),
            },
        )
    }
}

/// Finds the part of a screen-space triangle's box that the viewport shows.
pub fn triangle_screen_bounding_box(tri: &[Vec2; 3], viewport_size: Vec2) -> (r: Option<
    BoundingBox2D,
>)
    ensures
        r == screen_box_spec(tri@[0], tri@[1], tri@[2], viewport_size),
{
    let bb = get_triangle_bounding_box_2d(tri);

    if bb.left.ge(viewport_size.x) || bb.right.is_negative() || bb.top.ge(viewport_size.y)
        || bb.bot.is_negative() {
        None
    } else {
        let left = bb.left.max(Fixed::zero());
        let right = bb.right.min(viewport_size.x - Fixed::one());
        let top = bb.top.max(Fixed::zero());
        let bot = bb.bot.min(viewport_size.y - Fixed::one());

        Some(BoundingBox2D { left, right, top, bot })
    }
}

/// Whether the pixel in column `x` of row `y` lies in the box.
pub open spec fn covers(bb: BoundingBox2D, x: int, y: int) -> bool {
    &&& bb.left.floor_spec() <= x <= bb.right.floor_spec()
    &&& bb.top.floor_spec() <= y <= bb.bot.floor_spec()
}

/// The centre of the pixel in column `x` of row `y`.
pub open spec fn pixel_center_spec(x: int, y: int) -> Vec2 {
    Vec2 {
        x: Fixed::from_int_spec(x).plus(Fixed { raw: HALF_RAW }),
        y: Fixed::from_int_spec(y).plus(Fixed { raw: HALF_RAW }),
    }
}

/// `m.x * a0 + m.y * a1 + m.z * a2`.
pub open spec fn blend_spec(m: Vec3, a0: Fixed, a1: Fixed, a2: Fixed) -> Fixed {
    m.x.times(a0).plus(m.y.times(a1)).plus(m.z.times(a2))
}

/// `blend_spec` on each of two components.
pub open spec fn blend2_spec(m: Vec3, a0: Vec2, a1: Vec2, a2: Vec2) -> Vec2 {
    Vec2 { x: blend_spec(m, a0.x, a1.x, a2.x), y: blend_spec(m, a0.y, a1.y, a2.y) }
}

/// `blend_spec` on each of three components.
pub open spec fn blend3_spec(m: Vec3, a0: Vec3, a1: Vec3, a2: Vec3) -> Vec3 {
    Vec3 {
        x: blend_spec(m, a0.x, a1.x, a2.x),
        y: blend_spec(m, a0.y, a1.y, a2.y),
        z: blend_spec(m, a0.z, a1.z, a2.z),
    }
}

/// The direction toward the light.
pub open spec fn light_direction_spec() -> Vec3 {
    Vec3::splat_spec(Fixed { raw: LIGHT_RAW })
}

/// The colour under the light: `color * max(normal . light, 0) + ambient`.
pub open spec fn lit_spec(color: Vec3, normal: Vec3) -> Vec3 {
    color.scaled(normal.dot_spec(light_direction_spec()).max_of_spec(Fixed::zero_spec())).plus(
        Vec3::splat_spec(Fixed { raw: AMBIENT_RAW }),
    )
}

/// The opaque pixel of a linear colour, each channel clamped to `0..1`.
pub open spec fn pack_spec(color: Vec3) -> u32 {
    argb_spec(
        255,
        color.x.to_channel_spec(),
        color.y.to_channel_spec(),
        color.z.to_channel_spec(),
    ) as u32
}

/// The opaque grey pixel that encodes a depth.
pub open spec fn gray_spec(depth: Fixed) -> u32 {
    argb_spec(255, depth.to_channel_spec(), depth.to_channel_spec(), depth.to_channel_spec()) as u32
}

/// The colour of a pixel with weights `m`: in depth mode the grey of its
/// depth; else the texture, if there is one, at the perspective-correct
/// texture coordinate; else the perspective-correct vertex colour under the
/// light. An attribute is made perspective-correct by blending its divided
/// values and multiplying by `correction`.
pub open spec fn shade_spec(
    s0: ScreenVertex,
    s1: ScreenVertex,
    s2: ScreenVertex,
    m: Vec3,
    correction: Fixed,
    depth: Fixed,
    texture: Option<&Texture>,
    rtype: RenderType,
) -> u32 {
    if rtype is Depth {
        gray_spec(depth)
    } else {
        match texture {
            Some(tex) => {
                let uv = blend2_spec(m, s0.attributes.uv, s1.attributes.uv, s2.attributes.uv).scaled(
                    correction,
                );
                tex.sample_spec(uv.x, uv.y)
            },
            None => {
                let normal = blend3_spec(
                    m,
                    s0.attributes.normal,
                    s1.attributes.normal,
                    s2.attributes.normal,
                ).scaled(correction);
                let color = blend3_spec(
                    m,
                    s0.attributes.color,
                    s1.attributes.color,
                    s2.attributes.color,
                ).scaled(correction);
                pack_spec(lit_spec(color, normal))
            },
        }
    }
}

/// What the triangle `s0`, `s1`, `s2` contributes to the pixel in column `x`
/// of row `y`: nothing if the triangle has no area, if the pixel centre is not
/// inside it, or if the blended `inv_w` is zero; else its blended depth and
/// its colour.
#[verifier::opaque]
pub open spec fn fragment_spec(
    s0: ScreenVertex,
    s1: ScreenVertex,
    s2: ScreenVertex,
    texture: Option<&Texture>,
    rtype: RenderType,
    x: int,
    y: int,
) -> Option<Fragment> {
    let area = edge_spec(s0.screen, s1.screen, s2.screen);
    match barycentric_spec(pixel_center_spec(x, y), s0.screen, s1.screen, s2.screen, area) {
        None => None,
        Some(m) => {
            let w_sum = blend_spec(m, s0.inv_w, s1.inv_w, s2.inv_w);
            if w_sum.raw == 0 {
                None
            } else {
                let depth = blend_spec(m, s0.depth, s1.depth, s2.depth);
                Some(
                    Fragment {
                        depth,
                        color: shade_spec(
                            s0,
                            s1,
                            s2,
                            m,
                            Fixed::one_spec().over(w_sum),
                            depth,
                            texture,
                            rtype,
                        ),
                    },
                )
            }
        },
    }
}

/// A pixel after a fragment has been tested against it: the fragment's depth
/// and colour if the fragment is strictly nearer, else the pixel as it was.
pub open spec fn depth_test_spec(fragment: Option<Fragment>, depth: Fixed, color: u32) -> (
    Fixed,
    u32,
) {
    match fragment {
        Some(f) => if f.depth.raw < depth.raw {
            (f.depth, f.color)
        } else {
            (depth, color)
        },
        None => (depth, color),
    }
}

fn blend(m: Vec3, a0: Fixed, a1: Fixed, a2: Fixed) -> (r: Fixed)
    ensures
        r == blend_spec(m, a0, a1, a2),
{
    m.x * a0 + m.y * a1 + m.z * a2
}

fn blend2(m: Vec3, a0: Vec2, a1: Vec2, a2: Vec2) -> (r: Vec2)
    ensures
        r == blend2_spec(m, a0, a1, a2),
{
    Vec2 { x: blend(m, a0.x, a1.x, a2.x), y: blend(m, a0.y, a1.y, a2.y) }
}

fn blend3(m: Vec3, a0: Vec3, a1: Vec3, a2: Vec3) -> (r: Vec3)
    ensures
        r == blend3_spec(m, a0, a1, a2),
{
    Vec3 {
        x: blend(m, a0.x, a1.x, a2.x),
        y: blend(m, a0.y, a1.y, a2.y),
        z: blend(m, a0.z, a1.z, a2.z),
    }
}

/// Resolves the colour of a covered pixel.
pub fn shade(
    s0: &ScreenVertex,
    s1: &ScreenVertex,
    s2: &ScreenVertex,
    m: Vec3,
    correction: Fixed,
    depth: Fixed,
    texture: Option<&Texture>,
    rtype: &RenderType,
) -> (r: u32)
    requires
        texture is Some ==> texture->Some_0.well_formed(),
    ensures
        r == shade_spec(*s0, *s1, *s2, m, correction, depth, texture, *rtype),
{
    if let RenderType::Depth = rtype {
        let g: u8 = depth.to_channel();
        return to_argb8(255, g, g, g);
    }
    match texture {
        Some(tex) => {
            let uv = blend2(m, s0.attributes.uv, s1.attributes.uv, s2.attributes.uv) * correction;
            tex.sample(uv.x, uv.y)
        },
        None => {
            let normal = blend3(m, s0.attributes.normal, s1.attributes.normal, s2.attributes.normal)
                * correction;
            let color = blend3(m, s0.attributes.color, s1.attributes.color, s2.attributes.color)
                * correction;
            let light = Vec3::splat(Fixed::from_raw(LIGHT_RAW));
            let n_dot_l = normal.dot(light).max(Fixed::zero());
            let lit = color * n_dot_l + Vec3::splat(Fixed::from_raw(AMBIENT_RAW));
            to_argb8(255, lit.x.to_channel(), lit.y.to_channel(), lit.z.to_channel())
        },
    }
}

/// Computes what a screen-space triangle contributes to one pixel.
pub fn resolve_fragment(
    s0: &ScreenVertex,
    s1: &ScreenVertex,
    s2: &ScreenVertex,
    texture: Option<&Texture>,
    rtype: &RenderType,
    x: usize,
    y: usize,
) -> (r: Option<Fragment>)
    requires
        texture is Some ==> texture->Some_0.well_formed(),
    ensures
        r == fragment_spec(*s0, *s1, *s2, texture, *rtype, x as int, y as int),
{
    reveal(fragment_spec);
    let center = Vec2 {
        x: Fixed::from_usize(x) + Fixed::half(),
        y: Fixed::from_usize(y) + Fixed::half(),
    };
    let area = edge_function(s0.screen, s1.screen, s2.screen);
    match Barycentric_Coordinates(center, s0.screen, s1.screen, s2.screen, area) {
        None => None,
        Some(bary) => {
            let w_sum = blend(bary, s0.inv_w, s1.inv_w, s2.inv_w);
            if w_sum.is_zero() {
                None
            } else {
                let correction = Fixed::one() / w_sum;
                let depth = blend(bary, s0.depth, s1.depth, s2.depth);
                let color = shade(s0, s1, s2, bary, correction, depth, texture, rtype);
                Some(Fragment { depth, color })
            }
        },
    }
}

/// Tests a fragment against a pixel.
pub fn depth_test(fragment: Option<Fragment>, depth: Fixed, color: u32) -> (r: (Fixed, u32))
    ensures
        r == depth_test_spec(fragment, depth, color),
{
    match fragment {
        Some(f) => {
            if f.depth.lt(depth) {
                (f.depth, f.color)
            } else {
                (depth, color)
            }
        },
        None => (depth, color),
    }
}

/// A frame as contracts see it: the depth and the colour of every pixel.
pub struct Frame {
    pub depth: Seq<Fixed>,
    pub color: Seq<u32>,
}

/// The number of pixels in a row of the frame.
pub open spec fn pitch_spec(viewport_size: Vec2) -> int {
    viewport_size.x.floor_spec()
}

/// The number of rows of the frame.
pub open spec fn rows_spec(viewport_size: Vec2) -> int {
    viewport_size.y.floor_spec()
}

/// Whether a buffer of `len` pixels is a frame for the viewport: the viewport
/// has at least one pixel each way, and the buffer one entry for each pixel.
pub open spec fn frame_fits(viewport_size: Vec2, len: int) -> bool {
    &&& pitch_spec(viewport_size) >= 1
    &&& rows_spec(viewport_size) >= 1
    &&& len == pitch_spec(viewport_size) * rows_spec(viewport_size)
}

/// What a clip-space triangle contributes to the pixel with index `i`:
/// nothing if a vertex has `w` zero, if its box misses the viewport, or if the
/// pixel lies outside the box; else the fragment of the mapped triangle there.
pub open spec fn fragment_at_spec(
    tri: Triangle,
    texture: Option<&Texture>,
    viewport_size: Vec2,
    rtype: RenderType,
    i: int,
) -> Option<Fragment> {
    if tri.vert0.position.w.raw == 0 || tri.vert1.position.w.raw == 0 || tri.vert2.position.w.raw
        == 0 {
        None
    } else {
        let s0 = viewport_map_spec(tri.vert0, viewport_size);
        let s1 = viewport_map_spec(tri.vert1, viewport_size);
        let s2 = viewport_map_spec(tri.vert2, viewport_size);
        match screen_box_spec(s0.screen, s1.screen, s2.screen, viewport_size) {
            None => None,
            Some(bb) => {
                let (x, y) = index_to_coords_spec(i, pitch_spec(viewport_size));
                if covers(bb, x, y) {
                    fragment_spec(s0, s1, s2, texture, rtype, x, y)
                } else {
                    None
                }
            },
        }
    }
}

/// The pixel with index `i` after the triangle has been drawn over `frame`.
pub open spec fn pixel_after_spec(
    tri: Triangle,
    texture: Option<&Texture>,
    viewport_size: Vec2,
    rtype: RenderType,
    frame: Frame,
    i: int,
) -> (Fixed, u32) {
    depth_test_spec(
        fragment_at_spec(tri, texture, viewport_size, rtype, i),
        frame.depth[i],
        frame.color[i],
    )
}

/// The frame after a clip-space triangle has been drawn over it: every pixel
/// is tested against what the triangle contributes to it.
pub open spec fn rasterized_spec(
    tri: Triangle,
    texture: Option<&Texture>,
    viewport_size: Vec2,
    rtype: RenderType,
    frame: Frame,
) -> Frame {
    Frame {
        depth: Seq::new(
            frame.depth.len(),
            |i: int| pixel_after_spec(tri, texture, viewport_size, rtype, frame, i).0,
        ),
        color: Seq::new(
            frame.color.len(),
            |i: int| pixel_after_spec(tri, texture, viewport_size, rtype, frame, i).1,
        ),
    }
}

/// Whether the scan, which runs row after row and is about to visit column
/// `x` of row `y`, has been at the pixel with index `i`.
pub open spec fn scanned(i: int, pitch: int, x: int, y: int) -> bool {
    let (column, row) = index_to_coords_spec(i, pitch);
    row < y || (row == y && column < x)
}

/// A pixel after the box has been scanned for the triangle `s0`, `s1`, `s2`:
/// tested against the triangle's fragment if it lies in the box, else as it
/// was.
pub open spec fn box_pixel_spec(
    s0: ScreenVertex,
    s1: ScreenVertex,
    s2: ScreenVertex,
    texture: Option<&Texture>,
    rtype: RenderType,
    pitch: int,
    bb: BoundingBox2D,
    i: int,
    depth: Fixed,
    color: u32,
) -> (Fixed, u32) {
    let (x, y) = index_to_coords_spec(i, pitch);
    if covers(bb, x, y) {
        depth_test_spec(fragment_spec(s0, s1, s2, texture, rtype, x, y), depth, color)
    } else {
        (depth, color)
    }
}

/// Walks the pixels of a box row after row and tests each against the
/// triangle's fragment there.
fn scan_box(
    s0: &ScreenVertex,
    s1: &ScreenVertex,
    s2: &ScreenVertex,
    texture: Option<&Texture>,
    rtype: &RenderType,
    buffer: &mut Vec<u32>,
    z_buffer: &mut Vec<Fixed>,
    pitch: usize,
    rows: usize,
    bb: BoundingBox2D,
)
    requires
        old(buffer)@.len() == pitch * rows,
        old(z_buffer)@.len() == old(buffer)@.len(),
        texture is Some ==> texture->Some_0.well_formed(),
        0 <= bb.left.floor_spec(),
        bb.right.floor_spec() < pitch,
        0 <= bb.top.floor_spec(),
        bb.bot.floor_spec() < rows,
    ensures
        final(buffer)@.len() == old(buffer)@.len(),
        final(z_buffer)@.len() == old(z_buffer)@.len(),
        forall|i: int|
            0 <= i < old(buffer)@.len() ==> (#[trigger] final(z_buffer)@[i], final(buffer)@[i])
                == box_pixel_spec(
                *s0,
                *s1,
                *s2,
                texture,
                *rtype,
                pitch as int,
                bb,
                i,
                old(z_buffer)@[i],
                old(buffer)@[i],
            ),
{
    let ghost z0 = z_buffer@;
    let ghost c0 = buffer@;
    let len: usize = buffer.len();
    let x_lo: i64 = bb.left.floor();
    let x_hi: i64 = bb.right.floor();
    let y_lo: i64 = bb.top.floor();
    let y_hi: i64 = bb.bot.floor();
    if x_hi < x_lo || y_hi < y_lo {
        return ;
    }
    let x_first: usize = x_lo as usize;
    let x_last: usize = x_hi as usize;
    let y_last: usize = y_hi as usize;
    let mut y: usize = y_lo as usize;
    while y <= y_last
        invariant
            len == pitch * rows,
            x_first == bb.left.floor_spec(),
            x_last == bb.right.floor_spec(),
            y_last == bb.bot.floor_spec(),
            x_first <= x_last < pitch,
            y_last < rows,
            texture is Some ==> texture->Some_0.well_formed(),
            bb.top.floor_spec() <= y <= y_last + 1,
            z_buffer@.len() == len,
            buffer@.len() == len,
            z0.len() == len,
            c0.len() == len,
            forall|i: int|
                0 <= i < len ==> (#[trigger] z_buffer@[i], buffer@[i]) == if scanned(
                    i,
                    pitch as int,
                    x_first as int,
                    y as int,
                ) {
                    box_pixel_spec(*s0, *s1, *s2, texture, *rtype, pitch as int, bb, i, z0[i], c0[i])
                } else {
                    (z0[i], c0[i])
                },
        decreases y_last + 1 - y,
    {
        let mut x: usize = x_first;
        while x <= x_last
            invariant
                len == pitch * rows,
                x_first == bb.left.floor_spec(),
                x_last == bb.right.floor_spec(),
                y_last == bb.bot.floor_spec(),
                x_first <= x_last < pitch,
                y_last < rows,
                texture is Some ==> texture->Some_0.well_formed(),
                x_first <= x <= x_last + 1,
                bb.top.floor_spec() <= y <= y_last,
                z_buffer@.len() == len,
                buffer@.len() == len,
                z0.len() == len,
                c0.len() == len,
                forall|i: int|
                    0 <= i < len ==> (#[trigger] z_buffer@[i], buffer@[i]) == if scanned(
                        i,
                        pitch as int,
                        x as int,
                        y as int,
                    ) {
                        box_pixel_spec(
                            *s0,
                            *s1,
                            *s2,
                            texture,
                            *rtype,
                            pitch as int,
                            bb,
                            i,
                            z0[i],
                            c0[i],
                        )
                    } else {
                        (z0[i], c0[i])
                    },
            decreases x_last + 1 - x,
        {
            proof {
                lemma_index_coords_round_trip(x as int, y as int, pitch as int);
                assert(x + y * pitch < pitch * rows) by (nonlinear_arith)
                    requires
                        0 <= x < pitch,
                        0 <= y < rows,
                ;
            }
            let pixel_id: usize = coords_to_index(x, y, pitch);
            let fragment = resolve_fragment(s0, s1, s2, texture, rtype, x, y);
            let (depth, color) = depth_test(fragment, z_buffer[pixel_id], buffer[pixel_id]);
            z_buffer[pixel_id] = depth;
            buffer[pixel_id] = color;
            x = x + 1;
        }
        y = y + 1;
    }
}

/// Draws a clip-space triangle that has no vertex behind the near plane:
/// every pixel of the frame is tested against what the triangle contributes
/// to it, and depth and colour are written together.
#[allow(non_snake_case)]
pub fn Raster_Clipped_Triangle(
    tri: &Triangle,
    buffer: &mut Vec<u32>,
    texture: Option<&Texture>,
    z_buffer: &mut Vec<Fixed>,
    viewport_size: Vec2,
    rtype: &RenderType,
)
    requires
        frame_fits(viewport_size, old(buffer)@.len() as int),
        old(z_buffer)@.len() == old(buffer)@.len(),
        texture is Some ==> texture->Some_0.well_formed(),
    ensures
        (Frame { depth: final(z_buffer)@, color: final(buffer)@ }) == rasterized_spec(
            *tri,
            texture,
            viewport_size,
            *rtype,
            Frame { depth: old(z_buffer)@, color: old(buffer)@ },
        ),
{
    let ghost before = Frame { depth: z_buffer@, color: buffer@ };
    let ghost after = rasterized_spec(*tri, texture, viewport_size, *rtype, before);

    let (s0, s1, s2) = match (
        viewport_map(&tri.vert0, viewport_size),
        viewport_map(&tri.vert1, viewport_size),
        viewport_map(&tri.vert2, viewport_size),
    ) {
        (Some(s0), Some(s1), Some(s2)) => (s0, s1, s2),
        _ => {
            assert(after.depth =~= before.depth);
            assert(after.color =~= before.color);
            return ;
        },
    };
    let corners: [Vec2; 3] = [s0.screen, s1.screen, s2.screen];
    let bb = match triangle_screen_bounding_box(&corners, viewport_size) {
        Some(bb) => bb,
        None => {
            assert(after.depth =~= before.depth);
            assert(after.color =~= before.color);
            return ;
        },
    };
    let pitch: usize = viewport_size.x.floor() as usize;
    let rows: usize = viewport_size.y.floor() as usize;
    scan_box(&s0, &s1, &s2, texture, rtype, buffer, z_buffer, pitch, rows, bb);
    assert forall|i: int| 0 <= i < buffer@.len() implies (z_buffer@[i], buffer@[i]) == (
        after.depth[i],
        after.color[i],
    ) by {
        assert((z_buffer@[i], buffer@[i]) == pixel_after_spec(
            *tri,
            texture,
            viewport_size,
            *rtype,
            before,
            i,
        ));
    }
    assert(after.depth =~= z_buffer@);
    assert(after.color =~= buffer@);
}

/// The triangle in clip space: positions sent through `mvp`, normals through
/// the cofactor matrix of `model_mat` so that uneven scaling does not bend
/// them, colours and texture coordinates as they were.
#[verifier::opaque]
pub open spec fn to_clip_space_spec(tri: Triangle, model_mat: Mat4, mvp: Mat4) -> Triangle {
    let moved = tri.transform_spec(mvp);
    let cof_mat = cofactor_spec(model_mat);
    Triangle {
        vert0: Vertex {
            normal: cof_mat.mul_vec4_spec(
                tri.vert0.normal.extend_spec(Fixed::zero_spec()),
            ).xyz_spec(),
            ..moved.vert0
        },
        vert1: Vertex {
            normal: cof_mat.mul_vec4_spec(
                tri.vert1.normal.extend_spec(Fixed::zero_spec()),
            ).xyz_spec(),
            ..moved.vert1
        },
        vert2: Vertex {
            normal: cof_mat.mul_vec4_spec(
                tri.vert2.normal.extend_spec(Fixed::zero_spec()),
            ).xyz_spec(),
            ..moved.vert2
        },
    }
}

/// The triangle with all three vertices in one colour.
pub open spec fn tinted_spec(tri: Triangle, color: Vec3) -> Triangle {
    Triangle {
        vert0: tri.vert0.with_color(color),
        vert1: tri.vert1.with_color(color),
        vert2: tri.vert2.with_color(color),
    }
}

/// What is drawn for a clipped triangle. In `ClipDebug` mode the triangles
/// that clipping made are painted flat: green and blue for the two halves of a
/// triangle that lost one corner, red for the tip left of a triangle that lost
/// two. In every other mode the clipper's output is drawn as it is.
pub open spec fn shown_spec(clip_tri: Triangle, rtype: RenderType) -> ClipResult {
    match clip_spec(clip_tri) {
        ClipResult::Zero => ClipResult::Zero,
        ClipResult::One(t) => if rtype is ClipDebug && count_behind(clip_tri) == 2 {
            ClipResult::One(tinted_spec(t, Vec3::from_ints_spec(1, 0, 0)))
        } else {
            ClipResult::One(t)
        },
        ClipResult::Two((a, b)) => if rtype is ClipDebug {
            ClipResult::Two(
                (
                    tinted_spec(a, Vec3::from_ints_spec(0, 1, 0)),
                    tinted_spec(b, Vec3::from_ints_spec(0, 0, 1)),
                ),
            )
        } else {
            ClipResult::Two((a, b))
        },
    }
}

/// The frame after the triangles of a clip result have been drawn over it,
/// the first before the second.
pub open spec fn drawn_clipped_spec(
    clipped: ClipResult,
    texture: Option<&Texture>,
    viewport_size: Vec2,
    rtype: RenderType,
    frame: Frame,
) -> Frame {
    match clipped {
        ClipResult::Zero => frame,
        ClipResult::One(t) => rasterized_spec(t, texture, viewport_size, rtype, frame),
        ClipResult::Two((a, b)) => rasterized_spec(
            b,
            texture,
            viewport_size,
            rtype,
            rasterized_spec(a, texture, viewport_size, rtype, frame),
        ),
    }
}

/// The frame after a model-space triangle has been drawn over it: the
/// triangle is taken to clip space, culled and clipped, and what is left is
/// drawn.
pub open spec fn drawn_triangle_spec(
    tri: Triangle,
    model_mat: Mat4,
    mvp: Mat4,
    texture: Option<&Texture>,
    viewport_size: Vec2,
    rtype: RenderType,
    frame: Frame,
) -> Frame {
    drawn_clipped_spec(
        shown_spec(to_clip_space_spec(tri, model_mat, mvp), rtype),
        texture,
        viewport_size,
        rtype,
        frame,
    )
}

/// The frame after the first `count` triangles of a mesh have been drawn over
/// it, in the order of the mesh.
pub open spec fn drawn_mesh_spec(
    mesh: MeshView,
    count: nat,
    loc_mat: Mat4,
    mvp: Mat4,
    texture: Option<&Texture>,
    viewport_size: Vec2,
    rtype: RenderType,
    frame: Frame,
) -> Frame
    decreases count,
{
    if count == 0 {
        frame
    } else {
        drawn_triangle_spec(
            mesh.triangle(count - 1),
            loc_mat,
            mvp,
            texture,
            viewport_size,
            rtype,
            drawn_mesh_spec(
                mesh,
                (count - 1) as nat,
                loc_mat,
                mvp,
                texture,
                viewport_size,
                rtype,
                frame,
            ),
        )
    }
}

/// Drawing keeps the size of the frame.
pub proof fn lemma_drawing_keeps_size(
    tri: Triangle,
    model_mat: Mat4,
    mvp: Mat4,
    texture: Option<&Texture>,
    viewport_size: Vec2,
    rtype: RenderType,
    frame: Frame,
)
    ensures
        drawn_triangle_spec(tri, model_mat, mvp, texture, viewport_size, rtype, frame).depth.len()
            == frame.depth.len(),
        drawn_triangle_spec(tri, model_mat, mvp, texture, viewport_size, rtype, frame).color.len()
            == frame.color.len(),
{
}

fn tinted(tri: &Triangle, color: Vec3) -> (r: Triangle)
    ensures
        r == tinted_spec(*tri, color),
{
    let mut result = *tri;
    result.vert0.color = color;
    result.vert1.color = color;
    result.vert2.color = color;
    result
}

fn transformed_normal(cof_mat: &Mat4, normal: Vec3) -> (r: Vec3)
    ensures
        r == cof_mat.mul_vec4_spec(normal.extend_spec(Fixed::zero_spec())).xyz_spec(),
{
    cof_mat.mul_vec4(normal.extend(Fixed::zero())).xyz()
}

/// Draws a model-space triangle: takes it to clip space, culls and clips it,
/// and draws what is left.
#[allow(non_snake_case)]
pub fn Raster_Triangle(
    tri: &Triangle,
    model_mat: &Mat4,
    mvp: &Mat4,
    texture: Option<&Texture>,
    buffer: &mut Vec<u32>,
    z_buffer: &mut Vec<Fixed>,
    viewport_size: Vec2,
    rtype: &RenderType,
)
    requires
        frame_fits(viewport_size, old(buffer)@.len() as int),
        old(z_buffer)@.len() == old(buffer)@.len(),
        texture is Some ==> texture->Some_0.well_formed(),
    ensures
        (Frame { depth: final(z_buffer)@, color: final(buffer)@ }) == drawn_triangle_spec(
            *tri,
            *model_mat,
            *mvp,
            texture,
            viewport_size,
            *rtype,
            Frame { depth: old(z_buffer)@, color: old(buffer)@ },
        ),
{
    let cof_mat = cofactor(model_mat);

    let mut clip_tri = tri.transform(mvp);
    clip_tri.vert0.normal = transformed_normal(&cof_mat, tri.vert0.normal);
    clip_tri.vert1.normal = transformed_normal(&cof_mat, tri.vert1.normal);
    clip_tri.vert2.normal = transformed_normal(&cof_mat, tri.vert2.normal);
    assert(clip_tri == to_clip_space_spec(*tri, *model_mat, *mvp)) by {
        reveal(to_clip_space_spec);
    }

    let debug: bool = match rtype {
        RenderType::ClipDebug => true,
        _ => false,
    };
    match clip_cull_triangle(&clip_tri) {
        ClipResult::Zero => {},
        ClipResult::One(ctri) => {
            let two_behind: bool = (clip_tri.vert0.position.z.is_negative()
                && clip_tri.vert1.position.z.is_negative())
                || (clip_tri.vert0.position.z.is_negative()
                && clip_tri.vert2.position.z.is_negative())
                || (clip_tri.vert1.position.z.is_negative()
                && clip_tri.vert2.position.z.is_negative());
            let shown = if debug && two_behind {
                tinted(&ctri, Vec3::from_ints(1, 0, 0))
            } else {
                ctri
            };
            Raster_Clipped_Triangle(&shown, buffer, texture, z_buffer, viewport_size, rtype);
        },
        ClipResult::Two(ctri) => {
            let (first, second) = if debug {
                (
                    tinted(&ctri.0, Vec3::from_ints(0, 1, 0)),
                    tinted(&ctri.1, Vec3::from_ints(0, 0, 1)),
                )
            } else {
                (ctri.0, ctri.1)
            };
            Raster_Clipped_Triangle(&first, buffer, texture, z_buffer, viewport_size, rtype);
            Raster_Clipped_Triangle(&second, buffer, texture, z_buffer, viewport_size, rtype);
        },
    }
}

/// Draws the triangles of a mesh in their order.
pub fn raster_mesh(
    mesh: &Mesh,
    loc_mat: &Mat4,
    mvp: &Mat4,
    texture: Option<&Texture>,
    buffer: &mut Vec<u32>,
    z_buffer: &mut Vec<Fixed>,
    viewport_size: Vec2,
    render_type: &RenderType,
)
    requires
        mesh@.well_formed(),
        frame_fits(viewport_size, old(buffer)@.len() as int),
        old(z_buffer)@.len() == old(buffer)@.len(),
        texture is Some ==> texture->Some_0.well_formed(),
    ensures
        (Frame { depth: final(z_buffer)@, color: final(buffer)@ }) == drawn_mesh_spec(
            mesh@,
            mesh@.triangles.len(),
            *loc_mat,
            *mvp,
            texture,
            viewport_size,
            *render_type,
            Frame { depth: old(z_buffer)@, color: old(buffer)@ },
        ),
{
    let ghost before = Frame { depth: z_buffer@, color: buffer@ };
    let triangles = mesh.triangles();
    let mut k: usize = 0;
    while k < triangles.len()
        invariant
            k <= triangles@.len(),
            triangles@ == mesh@.triangles,
            mesh@.well_formed(),
            frame_fits(viewport_size, buffer@.len() as int),
            z_buffer@.len() == buffer@.len(),
            texture is Some ==> texture->Some_0.well_formed(),
            (Frame { depth: z_buffer@, color: buffer@ }) == drawn_mesh_spec(
                mesh@,
                k as nat,
                *loc_mat,
                *mvp,
                texture,
                viewport_size,
                *render_type,
                before,
            ),
        decreases triangles@.len() - k,
    {
        let tri = triangles[k];
        let vertices = mesh.get_vertices_from_triangle(tri);

        let temp_tri = Triangle { vert0: *vertices[0], vert1: *vertices[1], vert2: *vertices[2] };
        assert(temp_tri == mesh@.triangle(k as int));
        let ghost frame = Frame { depth: z_buffer@, color: buffer@ };
        proof {
            lemma_drawing_keeps_size(
                temp_tri,
                *loc_mat,
                *mvp,
                texture,
                viewport_size,
                *render_type,
                frame,
            );
        }

        Raster_Triangle(
            &temp_tri,
            loc_mat,
            mvp,
            texture,
            buffer,
            z_buffer,
            viewport_size,
            render_type,
        );
        k = k + 1;
    }
}

/// Whether, wherever the triangle `far` reaches a pixel, the triangle `near`
/// reaches it too, and at a smaller depth.
pub open spec fn strictly_nearer(
    near: Triangle,
    far: Triangle,
    texture: Option<&Texture>,
    viewport_size: Vec2,
    rtype: RenderType,
    len: int,
) -> bool {
    forall|i: int|
        0 <= i < len && (#[trigger] fragment_at_spec(far, texture, viewport_size, rtype, i))
            is Some ==> {
            let n = fragment_at_spec(near, texture, viewport_size, rtype, i);
            let f = fragment_at_spec(far, texture, viewport_size, rtype, i);
            n is Some && n->Some_0.depth.raw < f->Some_0.depth.raw
        }
}

/// Whether, wherever the triangle `far` reaches a pixel, the triangle `near`
/// reaches it too, and at a depth that is not larger.
pub open spec fn not_farther(
    near: Triangle,
    far: Triangle,
    texture: Option<&Texture>,
    viewport_size: Vec2,
    rtype: RenderType,
    len: int,
) -> bool {
    forall|i: int|
        0 <= i < len && (#[trigger] fragment_at_spec(far, texture, viewport_size, rtype, i))
            is Some ==> {
            let n = fragment_at_spec(near, texture, viewport_size, rtype, i);
            let f = fragment_at_spec(far, texture, viewport_size, rtype, i);
            n is Some && n->Some_0.depth.raw <= f->Some_0.depth.raw
        }
}

/// Drawing a triangle and then a nearer one over the same pixels leaves the
/// frame as if only the nearer one had been drawn.
pub proof fn lemma_nearer_draw_wins(
    near: Triangle,
    far: Triangle,
    texture: Option<&Texture>,
    viewport_size: Vec2,
    rtype: RenderType,
    frame: Frame,
)
    requires
        frame.depth.len() == frame.color.len(),
        strictly_nearer(near, far, texture, viewport_size, rtype, frame.depth.len() as int),
    ensures
        rasterized_spec(
            near,
            texture,
            viewport_size,
            rtype,
            rasterized_spec(far, texture, viewport_size, rtype, frame),
        ) == rasterized_spec(near, texture, viewport_size, rtype, frame),
{
    let between = rasterized_spec(far, texture, viewport_size, rtype, frame);
    let both = rasterized_spec(near, texture, viewport_size, rtype, between);
    let only = rasterized_spec(near, texture, viewport_size, rtype, frame);
    assert forall|i: int| 0 <= i < frame.depth.len() implies both.depth[i] == only.depth[i]
        && both.color[i] == only.color[i] by {
        let f = fragment_at_spec(far, texture, viewport_size, rtype, i);
        assert(between.depth[i] == pixel_after_spec(far, texture, viewport_size, rtype, frame, i).0);
        assert(between.color[i] == pixel_after_spec(far, texture, viewport_size, rtype, frame, i).1);
    }
    assert(both.depth =~= only.depth);
    assert(both.color =~= only.color);
}

/// Drawing a triangle after one that is nowhere farther over the same pixels
/// changes nothing: among equal depths the earlier draw stays.
pub proof fn lemma_farther_draw_changes_nothing(
    near: Triangle,
    far: Triangle,
    texture: Option<&Texture>,
    viewport_size: Vec2,
    rtype: RenderType,
    frame: Frame,
)
    requires
        frame.depth.len() == frame.color.len(),
        not_farther(near, far, texture, viewport_size, rtype, frame.depth.len() as int),
    ensures
        rasterized_spec(
            far,
            texture,
            viewport_size,
            rtype,
            rasterized_spec(near, texture, viewport_size, rtype, frame),
        ) == rasterized_spec(near, texture, viewport_size, rtype, frame),
{
    let only = rasterized_spec(near, texture, viewport_size, rtype, frame);
    let both = rasterized_spec(far, texture, viewport_size, rtype, only);
    assert forall|i: int| 0 <= i < frame.depth.len() implies both.depth[i] == only.depth[i]
        && both.color[i] == only.color[i] by {
        let f = fragment_at_spec(far, texture, viewport_size, rtype, i);
        assert(only.depth[i] == pixel_after_spec(near, texture, viewport_size, rtype, frame, i).0);
        assert(only.color[i] == pixel_after_spec(near, texture, viewport_size, rtype, frame, i).1);
    }
    assert(both.depth =~= only.depth);
    assert(both.color =~= only.color);
}

/// Drawing never moves a pixel farther away, and a pixel whose depth stays
/// keeps its colour: depth and colour change together or not at all.
pub proof fn lemma_depth_only_decreases(
    tri: Triangle,
    texture: Option<&Texture>,
    viewport_size: Vec2,
    rtype: RenderType,
    frame: Frame,
    i: int,
)
    requires
        0 <= i < frame.depth.len(),
        frame.depth.len() == frame.color.len(),
    ensures
        ({
            let after = rasterized_spec(tri, texture, viewport_size, rtype, frame);
            &&& after.depth[i].raw <= frame.depth[i].raw
            &&& after.depth[i] == frame.depth[i] ==> after.color[i] == frame.color[i]
        }),
{
}

/// Whether `m` is a triple of weights as the scan makes them: none negative,
/// the third what the first two leave of one.
pub open spec fn is_weights(m: Vec3) -> bool {
    &&& m.x.raw >= 0
    &&& m.y.raw >= 0
    &&& m.z.raw >= 0
    &&& m.z == Fixed::one_spec().minus(m.x).minus(m.y)
}

/// For a triangle whose three vertices have `w` equal to one,
/// perspective-correct interpolation of a scalar attribute is plain
/// barycentric interpolation.
pub proof fn lemma_unit_w_interpolation_is_affine(m: Vec3, a0: Fixed, a1: Fixed, a2: Fixed)
    requires
        is_weights(m),
    ensures
        ({
            let inv_w = Fixed::one_spec().over(Fixed::one_spec());
            let correction = Fixed::one_spec().over(blend_spec(m, inv_w, inv_w, inv_w));
            blend_spec(m, a0.times(inv_w), a1.times(inv_w), a2.times(inv_w)).times(correction)
                == blend_spec(m, a0, a1, a2)
        }),
{
    let one = Fixed::one_spec();
    lemma_one_is_neutral(one);
    lemma_one_is_neutral(a0);
    lemma_one_is_neutral(a1);
    lemma_one_is_neutral(a2);
    lemma_one_is_neutral(m.x);
    lemma_one_is_neutral(m.y);
    lemma_one_is_neutral(m.z);
    assert(blend_spec(m, one, one, one) == one);
    lemma_one_is_neutral(blend_spec(m, a0, a1, a2));
}

/// For a triangle whose three vertices have `w` equal to one, the
/// perspective-correct colour and texture coordinate of a pixel are the plain
/// barycentric blends of the vertices' own.
pub proof fn lemma_unit_w_attributes_are_affine(
    m: Vec3,
    c0: Vec3,
    c1: Vec3,
    c2: Vec3,
    t0: Vec2,
    t1: Vec2,
    t2: Vec2,
)
    requires
        is_weights(m),
    ensures
        ({
            let inv_w = Fixed::one_spec().over(Fixed::one_spec());
            let correction = Fixed::one_spec().over(blend_spec(m, inv_w, inv_w, inv_w));
            &&& blend3_spec(m, c0.scaled(inv_w), c1.scaled(inv_w), c2.scaled(inv_w)).scaled(
                correction,
            ) == blend3_spec(m, c0, c1, c2)
            &&& blend2_spec(m, t0.scaled(inv_w), t1.scaled(inv_w), t2.scaled(inv_w)).scaled(
                correction,
            ) == blend2_spec(m, t0, t1, t2)
        }),
{
    lemma_unit_w_interpolation_is_affine(m, c0.x, c1.x, c2.x);
    lemma_unit_w_interpolation_is_affine(m, c0.y, c1.y, c2.y);
    lemma_unit_w_interpolation_is_affine(m, c0.z, c1.z, c2.z);
    lemma_unit_w_interpolation_is_affine(m, t0.x, t1.x, t2.x);
    lemma_unit_w_interpolation_is_affine(m, t0.y, t1.y, t2.y);
}

/// The weights that the scan finds for a pixel inside a triangle are weights
/// in the sense of `is_weights`.
pub proof fn lemma_barycentric_gives_weights(point: Vec2, v0: Vec2, v1: Vec2, v2: Vec2, area: Fixed)
    requires
        barycentric_spec(point, v0, v1, v2, area) is Some,
    ensures
        is_weights(barycentric_spec(point, v0, v1, v2, area)->Some_0),
{
}

} // verus!
