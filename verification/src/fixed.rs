//! Signed fixed-point scalars with 32 fractional bits.
//!
//! A `Fixed` stores the number `raw / 2^32` in an `i64`. Every operation
//! saturates at the ends of the `i64` range, so arithmetic is total except for
//! division by zero, and products and quotients round toward zero.
use vstd::prelude::*;
use vstd::std_specs::ops::AddSpecImpl;
use vstd::std_specs::ops::DivSpecImpl;
use vstd::std_specs::ops::MulSpecImpl;
use vstd::std_specs::ops::NegSpecImpl;
use vstd::std_specs::ops::SubSpecImpl;

verus! {

/// Raw representation of the number one.
pub const ONE_RAW: i64 = 4294967296;

/// Raw representation of one half.
pub const HALF_RAW: i64 = 2147483648;

/// Clamps an integer into the range of an `i64`.
pub open spec fn saturate(x: int) -> int {
    if x > i64::MAX {
        i64::MAX as int
    } else if x < i64::MIN {
        i64::MIN as int
    } else {
        x
    }
}

/// Absolute value of an integer.
pub open spec fn magnitude(x: int) -> int {
    if x >= 0 {
        x
    } else {
        -x
    }
}

/// Quotient of `a` by `b`, rounded toward zero.
pub open spec fn trunc_div(a: int, b: int) -> int
    recommends
        b != 0,
{
    let q = magnitude(a) / magnitude(b);
    if (a >= 0) == (b > 0) {
        q
    } else {
        -q
    }
}

/// Raw sum of two raw values, saturated.
pub open spec fn fx_add(a: int, b: int) -> int {
    saturate(a + b)
}

/// Raw difference of two raw values, saturated.
pub open spec fn fx_sub(a: int, b: int) -> int {
    saturate(a - b)
}

/// Raw product of two raw values: `a * b / 2^32`, rounded toward zero and
/// saturated.
#[verifier::opaque]
pub open spec fn fx_mul(a: int, b: int) -> int {
    saturate(trunc_div(a * b, ONE_RAW as int))
}

/// Raw quotient of two raw values: `a * 2^32 / b`, rounded toward zero and
/// saturated.
#[verifier::opaque]
pub open spec fn fx_div(a: int, b: int) -> int
    recommends
        b != 0,
{
    saturate(trunc_div(a * ONE_RAW, b))
}

/// Raw negation of a raw value, saturated.
pub open spec fn fx_neg(a: int) -> int {
    saturate(-a)
}

/// The product of two 64-bit values fits comfortably in 128 bits.
pub proof fn lemma_product_fits(a: int, b: int)
    requires
        i64::MIN <= a <= i64::MAX,
        i64::MIN <= b <= i64::MAX,
    ensures
        -0x4000_0000_0000_0000_0000_0000_0000_0000 <= a * b
            <= 0x4000_0000_0000_0000_0000_0000_0000_0000,
{
    let m: int = 0x8000_0000_0000_0000;
    assert(a * b <= m * m && a * b >= -(m * m)) by (nonlinear_arith)
        requires
            -m <= a <= m,
            -m <= b <= m,
            m >= 0,
    ;
    assert(m * m == 0x4000_0000_0000_0000_0000_0000_0000_0000) by (nonlinear_arith)
        requires
            m == 0x8000_0000_0000_0000,
    ;
}

/// A fixed-point number: the value is `raw / 2^32`.
#[derive(Clone, Copy, Debug, PartialEq, Eq, Structural)]
pub struct Fixed {
    pub raw: i64,
}

fn clamp_wide(x: i128) -> (r: i64)
    ensures
        r == saturate(x as int),
{
    if x > i64::MAX as i128 {
        i64::MAX
    } else if x < i64::MIN as i128 {
        i64::MIN
    } else {
        x as i64
    }
}

/// Divides a wide numerator by a nonzero divisor, rounding toward zero, and
/// saturates the quotient.
fn quotient(n: i128, d: i64) -> (r: i64)
    requires
        d != 0,
        -0x4000_0000_0000_0000_0000_0000_0000_0000 <= n
            <= 0x4000_0000_0000_0000_0000_0000_0000_0000,
    ensures
        r == saturate(trunc_div(n as int, d as int)),
{
    let na: u128 = if n >= 0 {
        n as u128
    } else {
        (-n) as u128
    };
    let da: u128 = if d >= 0 {
        d as u128
    } else {
        (-(d as i128)) as u128
    };
    let q: u128 = na / da;
    assert(q <= na) by (nonlinear_arith)
        requires
            q == na / da,
            da >= 1,
            na >= 0,
    ;
    if (n >= 0) == (d > 0) {
        if q > 0x7fff_ffff_ffff_ffff {
            i64::MAX
        } else {
            q as i64
        }
    } else {
        if q > 0x8000_0000_0000_0000 {
            i64::MIN
        } else {
            (-(q as i128)) as i64
        }
    }
}

impl Fixed {
    /// The number zero.
    pub open spec fn zero_spec() -> Fixed {
        Fixed { raw: 0 }
    }

    /// The number one.
    pub open spec fn one_spec() -> Fixed {
        Fixed { raw: ONE_RAW }
    }

    /// The largest representable number, which also stands for "infinitely far".
    pub open spec fn max_spec() -> Fixed {
        Fixed { raw: i64::MAX }
    }

    /// The whole number `n`, saturated.
    pub open spec fn from_int_spec(n: int) -> Fixed {
        Fixed { raw: saturate(n * ONE_RAW) as i64 }
    }

    /// The fraction `num / den`, rounded toward zero and saturated.
    pub open spec fn from_ratio_spec(num: int, den: int) -> Fixed
        recommends
            den != 0,
    {
        Fixed { raw: saturate(trunc_div(num * ONE_RAW, den)) as i64 }
    }

    /// Saturating sum.
    pub open spec fn plus(self, rhs: Fixed) -> Fixed {
        Fixed { raw: fx_add(self.raw as int, rhs.raw as int) as i64 }
    }

    /// Saturating difference.
    pub open spec fn minus(self, rhs: Fixed) -> Fixed {
        Fixed { raw: fx_sub(self.raw as int, rhs.raw as int) as i64 }
    }

    /// Saturating product, rounded toward zero.
    pub open spec fn times(self, rhs: Fixed) -> Fixed {
        Fixed { raw: fx_mul(self.raw as int, rhs.raw as int) as i64 }
    }

    /// Saturating quotient, rounded toward zero.
    pub open spec fn over(self, rhs: Fixed) -> Fixed
        recommends
            rhs.raw != 0,
    {
        Fixed { raw: fx_div(self.raw as int, rhs.raw as int) as i64 }
    }

    /// Saturating negation.
    pub open spec fn negated(self) -> Fixed {
        Fixed { raw: fx_neg(self.raw as int) as i64 }
    }

    /// The smaller of two numbers.
    pub open spec fn min_spec(self, other: Fixed) -> Fixed {
        if self.raw <= other.raw {
            self
        } else {
            other
        }
    }

    /// The larger of two numbers.
    pub open spec fn max_of_spec(self, other: Fixed) -> Fixed {
        if self.raw >= other.raw {
            self
        } else {
            other
        }
    }

    /// The largest whole number not above this one.
    pub open spec fn floor_spec(self) -> int {
        self.raw as int / ONE_RAW as int
    }

    /// The colour channel this number encodes: `self * 255`, rounded toward
    /// zero and clamped to `0..=255`.
    pub open spec fn to_channel_spec(self) -> int {
        let scaled = trunc_div(self.raw * 255, ONE_RAW as int);
        if scaled < 0 {
            0
        } else if scaled > 255 {
            255
        } else {
            scaled
        }
    }

    /// The whole part of this number, rounded toward zero and clamped into the
    /// range of an `i32`.
    pub open spec fn to_i32_spec(self) -> int {
        let whole = trunc_div(self.raw as int, ONE_RAW as int);
        if whole > i32::MAX {
            i32::MAX as int
        } else if whole < i32::MIN {
            i32::MIN as int
        } else {
            whole
        }
    }

    /// The number with the given raw representation.
    pub fn from_raw(raw: i64) -> (r: Fixed)
        ensures
            r.raw == raw,
    {
        Fixed { raw }
    }

    /// The number zero.
    pub fn zero() -> (r: Fixed)
        ensures
            r == Fixed::zero_spec(),
    {
        Fixed { raw: 0 }
    }

    /// The number one.
    pub fn one() -> (r: Fixed)
        ensures
            r == Fixed::one_spec(),
    {
        Fixed { raw: ONE_RAW }
    }

    /// One half.
    pub fn half() -> (r: Fixed)
        ensures
            r.raw == HALF_RAW,
    {
        Fixed { raw: HALF_RAW }
    }

    /// The largest representable number.
    pub fn max_value() -> (r: Fixed)
        ensures
            r == Fixed::max_spec(),
    {
        Fixed { raw: i64::MAX }
    }

    /// The whole number `n`, saturated.
    pub fn from_int(n: i64) -> (r: Fixed)
        ensures
            r == Fixed::from_int_spec(n as int),
    {
        proof {
            lemma_product_fits(n as int, ONE_RAW as int);
        }
        let wide: i128 = (n as i128) * (ONE_RAW as i128);
        Fixed { raw: clamp_wide(wide) }
    }

    /// The whole number `n`, saturated.
    pub fn from_usize(n: usize) -> (r: Fixed)
        ensures
            r == Fixed::from_int_spec(n as int),
    {
        if n >= 2147483648 {
            assert(n * ONE_RAW > i64::MAX) by (nonlinear_arith)
                requires
                    n >= 2147483648,
                    ONE_RAW == 4294967296,
            ;
            Fixed { raw: i64::MAX }
        } else {
            let wide: i64 = (n as i64) * ONE_RAW;
            Fixed { raw: wide }
        }
    }

    /// The fraction `num / den`, rounded toward zero and saturated.
    pub fn from_ratio(num: i64, den: i64) -> (r: Fixed)
        requires
            den != 0,
        ensures
            r == Fixed::from_ratio_spec(num as int, den as int),
    {
        proof {
            lemma_product_fits(num as int, ONE_RAW as int);
        }
        let wide: i128 = (num as i128) * (ONE_RAW as i128);
        Fixed { raw: quotient(wide, den) }
    }

    /// The raw representation.
    pub fn raw(self) -> (r: i64)
        ensures
            r == self.raw,
    {
        self.raw
    }

    /// Whether this number is smaller than `other`.
    pub fn lt(self, other: Fixed) -> (r: bool)
        ensures
            r == (self.raw < other.raw),
    {
        self.raw < other.raw
    }

    /// Whether this number is at most `other`.
    pub fn le(self, other: Fixed) -> (r: bool)
        ensures
            r == (self.raw <= other.raw),
    {
        self.raw <= other.raw
    }

    /// Whether this number is larger than `other`.
    pub fn gt(self, other: Fixed) -> (r: bool)
        ensures
            r == (self.raw > other.raw),
    {
        self.raw > other.raw
    }

    /// Whether this number is at least `other`.
    pub fn ge(self, other: Fixed) -> (r: bool)
        ensures
            r == (self.raw >= other.raw),
    {
        self.raw >= other.raw
    }

    /// Whether this number is below zero.
    pub fn is_negative(self) -> (r: bool)
        ensures
            r == (self.raw < 0),
    {
        self.raw < 0
    }

    /// Whether this number is zero.
    pub fn is_zero(self) -> (r: bool)
        ensures
            r == (self.raw == 0),
    {
        self.raw == 0
    }

    /// The smaller of two numbers.
    pub fn min(self, other: Fixed) -> (r: Fixed)
        ensures
            r == self.min_spec(other),
    {
        if self.raw <= other.raw {
            self
        } else {
            other
        }
    }

    /// The larger of two numbers.
    pub fn max(self, other: Fixed) -> (r: Fixed)
        ensures
            r == self.max_of_spec(other),
    {
        if self.raw >= other.raw {
            self
        } else {
            other
        }
    }

    /// The largest whole number not above this one.
    pub fn floor(self) -> (r: i64)
        ensures
            r == self.floor_spec(),
    {
        if self.raw >= 0 {
            self.raw / ONE_RAW
        } else {
            let up: i64 = (self.raw + 1) / ONE_RAW;
            up - 1
        }
    }

    /// The whole part, rounded toward zero and clamped into an `i32`.
    pub fn to_i32(self) -> (r: i32)
        ensures
            r == self.to_i32_spec(),
    {
        let whole: i64 = quotient(self.raw as i128, ONE_RAW);
        if whole > i32::MAX as i64 {
            i32::MAX
        } else if whole < i32::MIN as i64 {
            i32::MIN
        } else {
            whole as i32
        }
    }

    /// The colour channel that this number encodes.
    pub fn to_channel(self) -> (r: u8)
        ensures
            r == self.to_channel_spec(),
    {
        let wide: i128 = (self.raw as i128) * 255;
        let scaled: i64 = quotient(wide, ONE_RAW);
        if scaled < 0 {
            0
        } else if scaled > 255 {
            255
        } else {
            scaled as u8
        }
    }
}

impl core::ops::Add for Fixed {
    type Output = Fixed;

    fn add(self, rhs: Fixed) -> (r: Fixed)
        ensures
            r == self.plus(rhs),
    {
        Fixed { raw: clamp_wide(self.raw as i128 + rhs.raw as i128) }
    }
}

impl AddSpecImpl for Fixed {
    open spec fn obeys_add_spec() -> bool {
        true
    }

    open spec fn add_req(self, rhs: Fixed) -> bool {
        true
    }

    open spec fn add_spec(self, rhs: Fixed) -> Fixed {
        self.plus(rhs)
    }
}

impl core::ops::Sub for Fixed {
    type Output = Fixed;

    fn sub(self, rhs: Fixed) -> (r: Fixed)
        ensures
            r == self.minus(rhs),
    {
        Fixed { raw: clamp_wide(self.raw as i128 - rhs.raw as i128) }
    }
}

impl SubSpecImpl for Fixed {
    open spec fn obeys_sub_spec() -> bool {
        true
    }

    open spec fn sub_req(self, rhs: Fixed) -> bool {
        true
    }

    open spec fn sub_spec(self, rhs: Fixed) -> Fixed {
        self.minus(rhs)
    }
}

impl core::ops::Mul for Fixed {
    type Output = Fixed;

    fn mul(self, rhs: Fixed) -> (r: Fixed)
        ensures
            r == self.times(rhs),
    {
        proof {
            reveal(fx_mul);
            lemma_product_fits(self.raw as int, rhs.raw as int);
        }
        let wide: i128 = (self.raw as i128) * (rhs.raw as i128);
        Fixed { raw: quotient(wide, ONE_RAW) }
    }
}

impl MulSpecImpl for Fixed {
    open spec fn obeys_mul_spec() -> bool {
        true
    }

    open spec fn mul_req(self, rhs: Fixed) -> bool {
        true
    }

    open spec fn mul_spec(self, rhs: Fixed) -> Fixed {
        self.times(rhs)
    }
}

/// Division needs a divisor other than zero, as `div_req` states.
impl core::ops::Div for Fixed {
    type Output = Fixed;

    fn div(self, rhs: Fixed) -> (r: Fixed)
        ensures
            r == self.over(rhs),
    {
        proof {
            reveal(fx_div);
            lemma_product_fits(self.raw as int, ONE_RAW as int);
        }
        let wide: i128 = (self.raw as i128) * (ONE_RAW as i128);
        Fixed { raw: quotient(wide, rhs.raw) }
    }
}

impl DivSpecImpl for Fixed {
    open spec fn obeys_div_spec() -> bool {
        true
    }

    open spec fn div_req(self, rhs: Fixed) -> bool {
        rhs.raw != 0
    }

    open spec fn div_spec(self, rhs: Fixed) -> Fixed {
        self.over(rhs)
    }
}

impl core::ops::Neg for Fixed {
    type Output = Fixed;

    fn neg(self) -> (r: Fixed)
        ensures
            r == self.negated(),
    {
        Fixed { raw: clamp_wide(-(self.raw as i128)) }
    }
}

impl NegSpecImpl for Fixed {
    open spec fn obeys_neg_spec() -> bool {
        true
    }

    open spec fn neg_req(self) -> bool {
        true
    }

    open spec fn neg_spec(self) -> Fixed {
        self.negated()
    }
}

/// Multiplying by one changes nothing, and one divided by one is one.
pub proof fn lemma_one_is_neutral(a: Fixed)
    ensures
        a.times(Fixed::one_spec()) == a,
        Fixed::one_spec().times(a) == a,
        Fixed::one_spec().over(Fixed::one_spec()) == Fixed::one_spec(),
{
    reveal(fx_mul);
    reveal(fx_div);
    let p: int = a.raw * ONE_RAW;
    assert(ONE_RAW * a.raw == p) by (nonlinear_arith)
        requires
            p == a.raw * ONE_RAW,
    ;
    assert(p == a.raw * 4294967296);
    assert(magnitude(p) == magnitude(a.raw as int) * 4294967296);
    assert(magnitude(p) / 4294967296 == magnitude(a.raw as int));
    assert(trunc_div(p, ONE_RAW as int) == a.raw);
}

} // verus!
