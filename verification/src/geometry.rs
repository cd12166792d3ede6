//! Vertices, triangles and screen-space boxes.
use vstd::prelude::*;
use vstd::std_specs::ops::AddSpecImpl;
use vstd::std_specs::ops::MulSpecImpl;
use vstd::std_specs::ops::SubSpecImpl;
use crate::fixed::Fixed;
use crate::vector::Mat4;
use crate::vector::Vec2;
use crate::vector::Vec3;
use crate::vector::Vec4;

verus! {

/// An axis-aligned box in screen space. Rows grow downward, so `top` is the
/// smallest `y` and `bot` the largest.
#[derive(Clone, Copy, Debug, PartialEq, Eq, Structural)]
pub struct BoundingBox2D {
    pub left: Fixed,
    pub right: Fixed,
    pub top: Fixed,
    pub bot: Fixed,
}

/// The smallest box that holds three points.
pub open spec fn bounding_box_spec(p0: Vec2, p1: Vec2, p2: Vec2) -> BoundingBox2D {
    BoundingBox2D {
        left: p0.x.min_spec(p1.x).min_spec(p2.x),
        right: p0.x.max_of_spec(p1.x).max_of_spec(p2.x),
        top: p0.y.min_spec(p1.y).min_spec(p2.y),
        bot: p0.y.max_of_spec(p1.y).max_of_spec(p2.y),
    }
}

/// Finds the smallest box that holds the three points.
pub fn get_triangle_bounding_box_2d(tri: &[Vec2; 3]) -> (r: BoundingBox2D)
    ensures
        r == bounding_box_spec(tri@[0], tri@[1], tri@[2]),
{
    let left = tri[0].x.min(tri[1].x).min(tri[2].x);
    let right = tri[0].x.max(tri[1].x).max(tri[2].x);
    let top = tri[0].y.min(tri[1].y).min(tri[2].y);
    let bot = tri[0].y.max(tri[1].y).max(tri[2].y);
    BoundingBox2D { left, right, top, bot }
}

/// A pixel position.
#[derive(Clone, Copy, Debug, PartialEq, Eq, Structural)]
pub struct Point {
    pub x: i32,
    pub y: i32,
}

/// The attributes carried by one vertex: homogeneous position, normal,
/// colour (linear, `0..1`) and texture coordinate.
#[derive(Clone, Copy, Debug, PartialEq, Eq, Structural)]
pub struct Vertex {
    pub position: Vec4,
    pub normal: Vec3,
    pub color: Vec3,
    pub uv: Vec2,
}

impl Vertex {
    #[allow(non_snake_case)]
    pub fn Construct(position: Vec4, normal: Vec3, color: Vec3, uv: Vec2) -> (r: Vertex)
        ensures
            r == (Vertex { position, normal, color, uv }),
    {
        Vertex { position, normal, color, uv }
    }

    /// The vertex at the origin with no normal, black colour and texture
    /// coordinate `(1, 1)`.
    pub open spec fn default_spec() -> Vertex {
        Vertex {
            position: Vec4::from_ints_spec(0, 0, 0, 0),
            normal: Vec3::from_ints_spec(0, 0, 0),
            color: Vec3::from_ints_spec(0, 0, 0),
            uv: Vec2::from_ints_spec(1, 1),
        }
    }

    /// Sum, attribute by attribute.
    pub open spec fn plus(self, rhs: Vertex) -> Vertex {
        Vertex {
            position: self.position.plus(rhs.position),
            normal: self.normal.plus(rhs.normal),
            color: self.color.plus(rhs.color),
            uv: self.uv.plus(rhs.uv),
        }
    }

    /// Difference, attribute by attribute.
    pub open spec fn minus(self, rhs: Vertex) -> Vertex {
        Vertex {
            position: self.position.minus(rhs.position),
            normal: self.normal.minus(rhs.normal),
            color: self.color.minus(rhs.color),
            uv: self.uv.minus(rhs.uv),
        }
    }

    /// Every attribute multiplied by `rhs`.
    pub open spec fn scaled(self, rhs: Fixed) -> Vertex {
        Vertex {
            position: self.position.scaled(rhs),
            normal: self.normal.scaled(rhs),
            color: self.color.scaled(rhs),
            uv: self.uv.scaled(rhs),
        }
    }

    /// The same vertex with another colour.
    pub open spec fn with_color(self, color: Vec3) -> Vertex {
        Vertex { color, ..self }
    }
}

impl Default for Vertex {
    fn default() -> (r: Vertex)
        ensures
            r == Vertex::default_spec(),
    {
        Vertex {
            position: Vec4::from_ints(0, 0, 0, 0),
            normal: Vec3::from_ints(0, 0, 0),
            color: Vec3::from_ints(0, 0, 0),
            uv: Vec2::from_ints(1, 1),
        }
    }
}

impl core::ops::Add for Vertex {
    type Output = Vertex;

    fn add(self, rhs: Vertex) -> (r: Vertex)
        ensures
            r == self.plus(rhs),
    {
        let position = self.position + rhs.position;
        let normal = self.normal + rhs.normal;
        let color = self.color + rhs.color;
        let uv = self.uv + rhs.uv;
        Vertex::Construct(position, normal, color, uv)
    }
}

impl AddSpecImpl for Vertex {
    open spec fn obeys_add_spec() -> bool {
        true
    }

    open spec fn add_req(self, rhs: Vertex) -> bool {
        true
    }

    open spec fn add_spec(self, rhs: Vertex) -> Vertex {
        self.plus(rhs)
    }
}

impl core::ops::Sub for Vertex {
    type Output = Vertex;

    fn sub(self, rhs: Vertex) -> (r: Vertex)
        ensures
            r == self.minus(rhs),
    {
        let position = self.position - rhs.position;
        let normal = self.normal - rhs.normal;
        let color = self.color - rhs.color;
        let uv = self.uv - rhs.uv;
        Vertex::Construct(position, normal, color, uv)
    }
}

impl SubSpecImpl for Vertex {
    open spec fn obeys_sub_spec() -> bool {
        true
    }

    open spec fn sub_req(self, rhs: Vertex) -> bool {
        true
    }

    open spec fn sub_spec(self, rhs: Vertex) -> Vertex {
        self.minus(rhs)
    }
}

impl core::ops::Mul<Fixed> for Vertex {
    type Output = Vertex;

    fn mul(self, rhs: Fixed) -> (r: Vertex)
        ensures
            r == self.scaled(rhs),
    {
        let position = self.position * rhs;
        let normal = self.normal * rhs;
        let color = self.color * rhs;
        let uv = self.uv * rhs;
        Vertex::Construct(position, normal, color, uv)
    }
}

impl MulSpecImpl<Fixed> for Vertex {
    open spec fn obeys_mul_spec() -> bool {
        true
    }

    open spec fn mul_req(self, rhs: Fixed) -> bool {
        true
    }

    open spec fn mul_spec(self, rhs: Fixed) -> Vertex {
        self.scaled(rhs)
    }
}

impl core::ops::MulAssign<Fixed> for Vertex {
    fn mul_assign(&mut self, rhs: Fixed)
        ensures
            *final(self) == old(self).scaled(rhs),
    {
        self.position = self.position * rhs;
        self.normal = self.normal * rhs;
        self.color = self.color * rhs;
        self.uv = self.uv * rhs;
    }
}

/// Three vertices; the winding runs from `vert0` over `vert1` to `vert2`.
#[derive(Clone, Copy, Debug, PartialEq, Eq, Structural)]
pub struct Triangle {
    pub vert0: Vertex,
    pub vert1: Vertex,
    pub vert2: Vertex,
}

/// The six orders in which three vertices `A`, `B`, `C` can be listed.
#[allow(clippy::upper_case_acronyms)]
#[derive(Clone, Copy, Debug, PartialEq, Eq, Structural)]
pub enum VerticesOrder {
    ABC,
    ACB,
    BAC,
    BCA,
    CAB,
    CBA,
}

impl VerticesOrder {
    /// Whether the order is a rotation of `ABC`, which keeps the winding.
    pub open spec fn keeps_winding(self) -> bool {
        self is ABC || self is BCA || self is CAB
    }
}

impl Triangle {
    #[allow(non_snake_case)]
    pub fn Construct(v0: Vertex, v1: Vertex, v2: Vertex) -> (r: Triangle)
        ensures
            r == (Triangle { vert0: v0, vert1: v1, vert2: v2 }),
    {
        Triangle { vert0: v0, vert1: v1, vert2: v2 }
    }

    /// Where `matrix` sends the point whose first three coordinates are those
    /// of `position`.
    pub open spec fn transform_point_spec(matrix: Mat4, position: Vec4) -> Vec4 {
        matrix.mul_vec4_spec(position.xyz_spec().extend_spec(Fixed::one_spec()))
    }

    /// The triangle with every position sent through `matrix`; the other
    /// attributes stay.
    pub open spec fn transform_spec(self, matrix: Mat4) -> Triangle {
        Triangle {
            vert0: Vertex {
                position: Triangle::transform_point_spec(matrix, self.vert0.position),
                ..self.vert0
            },
            vert1: Vertex {
                position: Triangle::transform_point_spec(matrix, self.vert1.position),
                ..self.vert1
            },
            vert2: Vertex {
                position: Triangle::transform_point_spec(matrix, self.vert2.position),
                ..self.vert2
            },
        }
    }

    pub fn transform(&self, matrix: &Mat4) -> (r: Triangle)
        ensures
            r == self.transform_spec(*matrix),
    {
        let p0 = matrix.mul_vec4(self.vert0.position.xyz().extend(Fixed::one()));
        let p1 = matrix.mul_vec4(self.vert1.position.xyz().extend(Fixed::one()));
        let p2 = matrix.mul_vec4(self.vert2.position.xyz().extend(Fixed::one()));

        let mut result = *self;

        result.vert0.position = p0;
        result.vert1.position = p1;
        result.vert2.position = p2;

        result
    }

    /// The triangle with its vertices listed in `order`.
    pub open spec fn reorder_spec(self, order: VerticesOrder) -> Triangle {
        match order {
            VerticesOrder::ABC => self,
            VerticesOrder::ACB => Triangle {
                vert0: self.vert0,
                vert1: self.vert2,
                vert2: self.vert1,
            },
            VerticesOrder::BAC => Triangle {
                vert0: self.vert1,
                vert1: self.vert0,
                vert2: self.vert2,
            },
            VerticesOrder::BCA => Triangle {
                vert0: self.vert1,
                vert1: self.vert2,
                vert2: self.vert0,
            },
            VerticesOrder::CAB => Triangle {
                vert0: self.vert2,
                vert1: self.vert0,
                vert2: self.vert1,
            },
            VerticesOrder::CBA => Triangle {
                vert0: self.vert2,
                vert1: self.vert1,
                vert2: self.vert0,
            },
        }
    }

    pub fn reorder(&self, order: VerticesOrder) -> (r: Triangle)
        ensures
            r == self.reorder_spec(order),
    {
        match order {
            VerticesOrder::ABC => *self,
            VerticesOrder::ACB => Self::Construct(self.vert0, self.vert2, self.vert1),
            VerticesOrder::BAC => Self::Construct(self.vert1, self.vert0, self.vert2),
            VerticesOrder::BCA => Self::Construct(self.vert1, self.vert2, self.vert0),
            VerticesOrder::CAB => Self::Construct(self.vert2, self.vert0, self.vert1),
            VerticesOrder::CBA => Self::Construct(self.vert2, self.vert1, self.vert0),
        }
    }
}

impl Default for Triangle {
    fn default() -> (r: Triangle)
        ensures
            r == (Triangle {
                vert0: Vertex::default_spec(),
                vert1: Vertex::default_spec(),
                vert2: Vertex::default_spec(),
            }),
    {
        Triangle { vert0: Vertex::default(), vert1: Vertex::default(), vert2: Vertex::default() }
    }
}

} // verus!
