//! Textures: a grid of packed pixels sampled by wrapping coordinates.
use vstd::prelude::*;
use crate::fixed::Fixed;
use crate::fixed::ONE_RAW;

verus! {

/// A grid of packed ARGB pixels, stored row after row from the top.
#[derive(Debug)]
pub struct Texture {
    pub width: usize,
    pub height: usize,
    pub texels: Vec<u32>,
}

/// The part of a raw coordinate past the last whole number, in `0..2^32`.
pub open spec fn wrap_spec(raw: int) -> int {
    raw % (ONE_RAW as int)
}

/// The cell, out of `count`, that a coordinate falls into once it is wrapped
/// into `0..1`.
pub open spec fn cell_spec(coordinate: Fixed, count: int) -> int {
    (wrap_spec(coordinate.raw as int) * count) / (ONE_RAW as int)
}

/// A wrapped coordinate always falls into one of the cells.
pub proof fn lemma_cell_in_range(coordinate: Fixed, count: int)
    requires
        count > 0,
    ensures
        0 <= cell_spec(coordinate, count) < count,
{
    let f = wrap_spec(coordinate.raw as int);
    assert(0 <= f * count < ONE_RAW * count) by (nonlinear_arith)
        requires
            0 <= f < ONE_RAW,
            count > 0,
    ;
}

fn cell(coordinate: Fixed, count: usize) -> (r: usize)
    requires
        count > 0,
    ensures
        r == cell_spec(coordinate, count as int),
        r < count,
{
    proof {
        lemma_cell_in_range(coordinate, count as int);
    }
    let rem: i64 = coordinate.raw % ONE_RAW;
    let wrapped: i64 = if rem < 0 {
        rem + ONE_RAW
    } else {
        rem
    };
    assert(wrapped == wrap_spec(coordinate.raw as int));
    assert(0 <= wrapped * count < ONE_RAW * count) by (nonlinear_arith)
        requires
            0 <= wrapped < ONE_RAW,
            count > 0,
    ;
    let wide: u128 = (wrapped as u128) * (count as u128);
    (wide / (ONE_RAW as u128)) as usize
}

impl Texture {
    /// Whether the grid has at least one pixel and as many pixels as its
    /// width and height call for.
    pub open spec fn well_formed(&self) -> bool {
        &&& self.width > 0
        &&& self.height > 0
        &&& self.texels@.len() == self.width * self.height
    }

    /// The pixel nearest to the wrapped coordinates `(u, v)`; `u` runs along a
    /// row and `v` down the rows.
    pub open spec fn sample_spec(&self, u: Fixed, v: Fixed) -> u32 {
        self.texels@[cell_spec(v, self.height as int) * self.width + cell_spec(
            u,
            self.width as int,
        )]
    }

    /// Builds a texture if the pixels fill a grid of the given size.
    pub fn new(width: usize, height: usize, texels: Vec<u32>) -> (r: Option<Texture>)
        ensures
            r is Some <==> width > 0 && height > 0 && texels@.len() == width * height,
            r is Some ==> r->Some_0.well_formed() && r->Some_0.width == width && r->Some_0.height
                == height && r->Some_0.texels@ == texels@,
    {
        if width == 0 || height == 0 {
            return None;
        }
        let len: usize = texels.len();
        match width.checked_mul(height) {
            Some(n) => {
                if len == n {
                    Some(Texture { width, height, texels })
                } else {
                    None
                }
            },
            None => None,
        }
    }

    pub fn sample(&self, u: Fixed, v: Fixed) -> (r: u32)
        requires
            self.well_formed(),
        ensures
            r == self.sample_spec(u, v),
    {
        let len: usize = self.texels.len();
        let column: usize = cell(u, self.width);
        let row: usize = cell(v, self.height);
        assert(0 <= row * self.width && row * self.width + column < self.width * self.height)
            by (nonlinear_arith)
            requires
                0 <= row < self.height,
                0 <= column < self.width,
        ;
        self.texels[row * self.width + column]
    }
}

} // verus!
