//! Small vectors and matrices over fixed-point scalars, and index triples.
//!
//! Sums, differences and scalings act on each component with the saturating
//! arithmetic of `Fixed`.
use vstd::prelude::*;
use vstd::std_specs::ops::AddSpecImpl;
use vstd::std_specs::ops::MulSpecImpl;
use vstd::std_specs::ops::SubSpecImpl;
use crate::fixed::Fixed;

verus! {

/// A vector with two components.
#[derive(Clone, Copy, Debug, PartialEq, Eq, Structural)]
pub struct Vec2 {
    pub x: Fixed,
    pub y: Fixed,
}

/// A vector with three components.
#[derive(Clone, Copy, Debug, PartialEq, Eq, Structural)]
pub struct Vec3 {
    pub x: Fixed,
    pub y: Fixed,
    pub z: Fixed,
}

/// A vector with four components; as a position, `w` is the homogeneous
/// coordinate.
#[derive(Clone, Copy, Debug, PartialEq, Eq, Structural)]
pub struct Vec4 {
    pub x: Fixed,
    pub y: Fixed,
    pub z: Fixed,
    pub w: Fixed,
}

/// Three indices into a vertex buffer.
#[derive(Clone, Copy, Debug, PartialEq, Eq, Structural)]
pub struct UVec3 {
    pub x: u32,
    pub y: u32,
    pub z: u32,
}

/// A 4x4 matrix stored by columns.
#[derive(Clone, Copy, Debug, PartialEq, Eq, Structural)]
pub struct Mat4 {
    pub x_axis: Vec4,
    pub y_axis: Vec4,
    pub z_axis: Vec4,
    pub w_axis: Vec4,
}

impl Vec2 {
    pub fn new(x: Fixed, y: Fixed) -> (r: Vec2)
        ensures
            r == (Vec2 { x, y }),
    {
        Vec2 { x, y }
    }

    /// The vector of two whole numbers.
    pub open spec fn from_ints_spec(x: int, y: int) -> Vec2 {
        Vec2 { x: Fixed::from_int_spec(x), y: Fixed::from_int_spec(y) }
    }

    pub fn from_ints(x: i64, y: i64) -> (r: Vec2)
        ensures
            r == Vec2::from_ints_spec(x as int, y as int),
    {
        Vec2 { x: Fixed::from_int(x), y: Fixed::from_int(y) }
    }
}

impl Vec3 {
    pub fn new(x: Fixed, y: Fixed, z: Fixed) -> (r: Vec3)
        ensures
            r == (Vec3 { x, y, z }),
    {
        Vec3 { x, y, z }
    }

    /// The vector whose components are all `v`.
    pub open spec fn splat_spec(v: Fixed) -> Vec3 {
        Vec3 { x: v, y: v, z: v }
    }

    pub fn splat(v: Fixed) -> (r: Vec3)
        ensures
            r == Vec3::splat_spec(v),
    {
        Vec3 { x: v, y: v, z: v }
    }

    /// The vector of three whole numbers.
    pub open spec fn from_ints_spec(x: int, y: int, z: int) -> Vec3 {
        Vec3 {
            x: Fixed::from_int_spec(x),
            y: Fixed::from_int_spec(y),
            z: Fixed::from_int_spec(z),
        }
    }

    pub fn from_ints(x: i64, y: i64, z: i64) -> (r: Vec3)
        ensures
            r == Vec3::from_ints_spec(x as int, y as int, z as int),
    {
        Vec3 { x: Fixed::from_int(x), y: Fixed::from_int(y), z: Fixed::from_int(z) }
    }

    /// Dot product, summed from the first component on.
    pub open spec fn dot_spec(self, rhs: Vec3) -> Fixed {
        self.x.times(rhs.x).plus(self.y.times(rhs.y)).plus(self.z.times(rhs.z))
    }

    pub fn dot(self, rhs: Vec3) -> (r: Fixed)
        ensures
            r == self.dot_spec(rhs),
    {
        self.x * rhs.x + self.y * rhs.y + self.z * rhs.z
    }

    /// Cross product.
    pub open spec fn cross_spec(self, rhs: Vec3) -> Vec3 {
        Vec3 {
            x: self.y.times(rhs.z).minus(self.z.times(rhs.y)),
            y: self.z.times(rhs.x).minus(self.x.times(rhs.z)),
            z: self.x.times(rhs.y).minus(self.y.times(rhs.x)),
        }
    }

    pub fn cross(self, rhs: Vec3) -> (r: Vec3)
        ensures
            r == self.cross_spec(rhs),
    {
        Vec3 {
            x: self.y * rhs.z - self.z * rhs.y,
            y: self.z * rhs.x - self.x * rhs.z,
            z: self.x * rhs.y - self.y * rhs.x,
        }
    }

    /// The four-component vector with `w` appended.
    pub open spec fn extend_spec(self, w: Fixed) -> Vec4 {
        Vec4 { x: self.x, y: self.y, z: self.z, w }
    }

    pub fn extend(self, w: Fixed) -> (r: Vec4)
        ensures
            r == self.extend_spec(w),
    {
        Vec4 { x: self.x, y: self.y, z: self.z, w }
    }
}

impl Vec4 {
    pub fn new(x: Fixed, y: Fixed, z: Fixed, w: Fixed) -> (r: Vec4)
        ensures
            r == (Vec4 { x, y, z, w }),
    {
        Vec4 { x, y, z, w }
    }

    /// The vector of four whole numbers.
    pub open spec fn from_ints_spec(x: int, y: int, z: int, w: int) -> Vec4 {
        Vec4 {
            x: Fixed::from_int_spec(x),
            y: Fixed::from_int_spec(y),
            z: Fixed::from_int_spec(z),
            w: Fixed::from_int_spec(w),
        }
    }

    pub fn from_ints(x: i64, y: i64, z: i64, w: i64) -> (r: Vec4)
        ensures
            r == Vec4::from_ints_spec(x as int, y as int, z as int, w as int),
    {
        Vec4 {
            x: Fixed::from_int(x),
            y: Fixed::from_int(y),
            z: Fixed::from_int(z),
            w: Fixed::from_int(w),
        }
    }

    /// The first three components.
    pub open spec fn xyz_spec(self) -> Vec3 {
        Vec3 { x: self.x, y: self.y, z: self.z }
    }

    pub fn xyz(self) -> (r: Vec3)
        ensures
            r == self.xyz_spec(),
    {
        Vec3 { x: self.x, y: self.y, z: self.z }
    }
}

impl UVec3 {
    pub fn new(x: u32, y: u32, z: u32) -> (r: UVec3)
        ensures
            r == (UVec3 { x, y, z }),
    {
        UVec3 { x, y, z }
    }

    /// Whether every index is below `len`.
    pub open spec fn below(self, len: int) -> bool {
        self.x < len && self.y < len && self.z < len
    }

    /// The triple with `offset` added to every index.
    pub open spec fn shifted_spec(self, offset: int) -> UVec3
        recommends
            self.x + offset <= u32::MAX,
            self.y + offset <= u32::MAX,
            self.z + offset <= u32::MAX,
    {
        UVec3 {
            x: (self.x + offset) as u32,
            y: (self.y + offset) as u32,
            z: (self.z + offset) as u32,
        }
    }

    pub fn shifted(self, offset: u32) -> (r: UVec3)
        requires
            self.x + offset <= u32::MAX,
            self.y + offset <= u32::MAX,
            self.z + offset <= u32::MAX,
        ensures
            r == self.shifted_spec(offset as int),
    {
        UVec3 { x: self.x + offset, y: self.y + offset, z: self.z + offset }
    }
}

impl Mat4 {
    pub fn from_cols(x_axis: Vec4, y_axis: Vec4, z_axis: Vec4, w_axis: Vec4) -> (r: Mat4)
        ensures
            r == (Mat4 { x_axis, y_axis, z_axis, w_axis }),
    {
        Mat4 { x_axis, y_axis, z_axis, w_axis }
    }

    /// The identity matrix.
    pub open spec fn identity_spec() -> Mat4 {
        Mat4 {
            x_axis: Vec4::from_ints_spec(1, 0, 0, 0),
            y_axis: Vec4::from_ints_spec(0, 1, 0, 0),
            z_axis: Vec4::from_ints_spec(0, 0, 1, 0),
            w_axis: Vec4::from_ints_spec(0, 0, 0, 1),
        }
    }

    pub fn identity() -> (r: Mat4)
        ensures
            r == Mat4::identity_spec(),
    {
        Mat4 {
            x_axis: Vec4::from_ints(1, 0, 0, 0),
            y_axis: Vec4::from_ints(0, 1, 0, 0),
            z_axis: Vec4::from_ints(0, 0, 1, 0),
            w_axis: Vec4::from_ints(0, 0, 0, 1),
        }
    }

    /// The sixteen entries, column after column.
    pub open spec fn to_cols_array_spec(self) -> Seq<Fixed> {
        seq![
            self.x_axis.x, self.x_axis.y, self.x_axis.z, self.x_axis.w,
            self.y_axis.x, self.y_axis.y, self.y_axis.z, self.y_axis.w,
            self.z_axis.x, self.z_axis.y, self.z_axis.z, self.z_axis.w,
            self.w_axis.x, self.w_axis.y, self.w_axis.z, self.w_axis.w,
        ]
    }

    pub fn to_cols_array(&self) -> (r: [Fixed; 16])
        ensures
            r@ == self.to_cols_array_spec(),
    {
        let r: [Fixed; 16] = [
            self.x_axis.x, self.x_axis.y, self.x_axis.z, self.x_axis.w,
            self.y_axis.x, self.y_axis.y, self.y_axis.z, self.y_axis.w,
            self.z_axis.x, self.z_axis.y, self.z_axis.z, self.z_axis.w,
            self.w_axis.x, self.w_axis.y, self.w_axis.z, self.w_axis.w,
        ];
        assert(r@ =~= self.to_cols_array_spec());
        r
    }

    /// The matrix whose entries, column after column, are those of `m`.
    pub open spec fn from_cols_array_spec(m: Seq<Fixed>) -> Mat4
        recommends
            m.len() == 16,
    {
        Mat4 {
            x_axis: Vec4 { x: m[0], y: m[1], z: m[2], w: m[3] },
            y_axis: Vec4 { x: m[4], y: m[5], z: m[6], w: m[7] },
            z_axis: Vec4 { x: m[8], y: m[9], z: m[10], w: m[11] },
            w_axis: Vec4 { x: m[12], y: m[13], z: m[14], w: m[15] },
        }
    }

    pub fn from_cols_array(m: &[Fixed; 16]) -> (r: Mat4)
        ensures
            r == Mat4::from_cols_array_spec(m@),
    {
        Mat4 {
            x_axis: Vec4 { x: m[0], y: m[1], z: m[2], w: m[3] },
            y_axis: Vec4 { x: m[4], y: m[5], z: m[6], w: m[7] },
            z_axis: Vec4 { x: m[8], y: m[9], z: m[10], w: m[11] },
            w_axis: Vec4 { x: m[12], y: m[13], z: m[14], w: m[15] },
        }
    }

    /// The product of this matrix with a column vector: the columns weighted
    /// by the components of `v` and summed from the first column on.
    pub open spec fn mul_vec4_spec(self, v: Vec4) -> Vec4 {
        self.x_axis.scaled(v.x).plus(self.y_axis.scaled(v.y)).plus(self.z_axis.scaled(v.z)).plus(
            self.w_axis.scaled(v.w),
        )
    }

    pub fn mul_vec4(&self, v: Vec4) -> (r: Vec4)
        ensures
            r == self.mul_vec4_spec(v),
    {
        self.x_axis * v.x + self.y_axis * v.y + self.z_axis * v.z + self.w_axis * v.w
    }
}

impl Vec2 {
    /// Sum, component by component.
    pub open spec fn plus(self, rhs: Vec2) -> Vec2 {
        Vec2 { x: self.x.plus(rhs.x), y: self.y.plus(rhs.y) }
    }

    /// Difference, component by component.
    pub open spec fn minus(self, rhs: Vec2) -> Vec2 {
        Vec2 { x: self.x.minus(rhs.x), y: self.y.minus(rhs.y) }
    }

    /// Every component multiplied by `rhs`.
    pub open spec fn scaled(self, rhs: Fixed) -> Vec2 {
        Vec2 { x: self.x.times(rhs), y: self.y.times(rhs) }
    }
}

impl core::ops::Add for Vec2 {
    type Output = Vec2;

    fn add(self, rhs: Vec2) -> (r: Vec2)
        ensures
            r == self.plus(rhs),
    {
        Vec2 { x: self.x + rhs.x, y: self.y + rhs.y }
    }
}

impl AddSpecImpl for Vec2 {
    open spec fn obeys_add_spec() -> bool {
        true
    }

    open spec fn add_req(self, rhs: Vec2) -> bool {
        true
    }

    open spec fn add_spec(self, rhs: Vec2) -> Vec2 {
        self.plus(rhs)
    }
}

impl core::ops::Sub for Vec2 {
    type Output = Vec2;

    fn sub(self, rhs: Vec2) -> (r: Vec2)
        ensures
            r == self.minus(rhs),
    {
        Vec2 { x: self.x - rhs.x, y: self.y - rhs.y }
    }
}

impl SubSpecImpl for Vec2 {
    open spec fn obeys_sub_spec() -> bool {
        true
    }

    open spec fn sub_req(self, rhs: Vec2) -> bool {
        true
    }

    open spec fn sub_spec(self, rhs: Vec2) -> Vec2 {
        self.minus(rhs)
    }
}

impl core::ops::Mul<Fixed> for Vec2 {
    type Output = Vec2;

    fn mul(self, rhs: Fixed) -> (r: Vec2)
        ensures
            r == self.scaled(rhs),
    {
        Vec2 { x: self.x * rhs, y: self.y * rhs }
    }
}

impl MulSpecImpl<Fixed> for Vec2 {
    open spec fn obeys_mul_spec() -> bool {
        true
    }

    open spec fn mul_req(self, rhs: Fixed) -> bool {
        true
    }

    open spec fn mul_spec(self, rhs: Fixed) -> Vec2 {
        self.scaled(rhs)
    }
}

impl Vec3 {
    /// Sum, component by component.
    pub open spec fn plus(self, rhs: Vec3) -> Vec3 {
        Vec3 { x: self.x.plus(rhs.x), y: self.y.plus(rhs.y), z: self.z.plus(rhs.z) }
    }

    /// Difference, component by component.
    pub open spec fn minus(self, rhs: Vec3) -> Vec3 {
        Vec3 { x: self.x.minus(rhs.x), y: self.y.minus(rhs.y), z: self.z.minus(rhs.z) }
    }

    /// Every component multiplied by `rhs`.
    pub open spec fn scaled(self, rhs: Fixed) -> Vec3 {
        Vec3 { x: self.x.times(rhs), y: self.y.times(rhs), z: self.z.times(rhs) }
    }
}

impl core::ops::Add for Vec3 {
    type Output = Vec3;

    fn add(self, rhs: Vec3) -> (r: Vec3)
        ensures
            r == self.plus(rhs),
    {
        Vec3 { x: self.x + rhs.x, y: self.y + rhs.y, z: self.z + rhs.z }
    }
}

impl AddSpecImpl for Vec3 {
    open spec fn obeys_add_spec() -> bool {
        true
    }

    open spec fn add_req(self, rhs: Vec3) -> bool {
        true
    }

    open spec fn add_spec(self, rhs: Vec3) -> Vec3 {
        self.plus(rhs)
    }
}

impl core::ops::Sub for Vec3 {
    type Output = Vec3;

    fn sub(self, rhs: Vec3) -> (r: Vec3)
        ensures
            r == self.minus(rhs),
    {
        Vec3 { x: self.x - rhs.x, y: self.y - rhs.y, z: self.z - rhs.z }
    }
}

impl SubSpecImpl for Vec3 {
    open spec fn obeys_sub_spec() -> bool {
        true
    }

    open spec fn sub_req(self, rhs: Vec3) -> bool {
        true
    }

    open spec fn sub_spec(self, rhs: Vec3) -> Vec3 {
        self.minus(rhs)
    }
}

impl core::ops::Mul<Fixed> for Vec3 {
    type Output = Vec3;

    fn mul(self, rhs: Fixed) -> (r: Vec3)
        ensures
            r == self.scaled(rhs),
    {
        Vec3 { x: self.x * rhs, y: self.y * rhs, z: self.z * rhs }
    }
}

impl MulSpecImpl<Fixed> for Vec3 {
    open spec fn obeys_mul_spec() -> bool {
        true
    }

    open spec fn mul_req(self, rhs: Fixed) -> bool {
        true
    }

    open spec fn mul_spec(self, rhs: Fixed) -> Vec3 {
        self.scaled(rhs)
    }
}

impl Vec4 {
    /// Sum, component by component.
    pub open spec fn plus(self, rhs: Vec4) -> Vec4 {
        Vec4 {
            x: self.x.plus(rhs.x),
            y: self.y.plus(rhs.y),
            z: self.z.plus(rhs.z),
            w: self.w.plus(rhs.w),
        }
    }

    /// Difference, component by component.
    pub open spec fn minus(self, rhs: Vec4) -> Vec4 {
        Vec4 {
            x: self.x.minus(rhs.x),
            y: self.y.minus(rhs.y),
            z: self.z.minus(rhs.z),
            w: self.w.minus(rhs.w),
        }
    }

    /// Every component multiplied by `rhs`.
    pub open spec fn scaled(self, rhs: Fixed) -> Vec4 {
        Vec4 {
            x: self.x.times(rhs),
            y: self.y.times(rhs),
            z: self.z.times(rhs),
            w: self.w.times(rhs),
        }
    }
}

impl core::ops::Add for Vec4 {
    type Output = Vec4;

    fn add(self, rhs: Vec4) -> (r: Vec4)
        ensures
            r == self.plus(rhs),
    {
        Vec4 { x: self.x + rhs.x, y: self.y + rhs.y, z: self.z + rhs.z, w: self.w + rhs.w }
    }
}

impl AddSpecImpl for Vec4 {
    open spec fn obeys_add_spec() -> bool {
        true
    }

    open spec fn add_req(self, rhs: Vec4) -> bool {
        true
    }

    open spec fn add_spec(self, rhs: Vec4) -> Vec4 {
        self.plus(rhs)
    }
}

impl core::ops::Sub for Vec4 {
    type Output = Vec4;

    fn sub(self, rhs: Vec4) -> (r: Vec4)
        ensures
            r == self.minus(rhs),
    {
        Vec4 { x: self.x - rhs.x, y: self.y - rhs.y, z: self.z - rhs.z, w: self.w - rhs.w }
    }
}

impl SubSpecImpl for Vec4 {
    open spec fn obeys_sub_spec() -> bool {
        true
    }

    open spec fn sub_req(self, rhs: Vec4) -> bool {
        true
    }

    open spec fn sub_spec(self, rhs: Vec4) -> Vec4 {
        self.minus(rhs)
    }
}

impl core::ops::Mul<Fixed> for Vec4 {
    type Output = Vec4;

    fn mul(self, rhs: Fixed) -> (r: Vec4)
        ensures
            r == self.scaled(rhs),
    {
        Vec4 { x: self.x * rhs, y: self.y * rhs, z: self.z * rhs, w: self.w * rhs }
    }
}

impl MulSpecImpl<Fixed> for Vec4 {
    open spec fn obeys_mul_spec() -> bool {
        true
    }

    open spec fn mul_req(self, rhs: Fixed) -> bool {
        true
    }

    open spec fn mul_spec(self, rhs: Fixed) -> Vec4 {
        self.scaled(rhs)
    }
}

} // verus!
