//! The executable number type and its operations.
use vstd::prelude::*;
use crate::laws::lemma_mul_identity_and_zero;
use crate::model::{
    Quad,
    fits_i64,
    one_quad,
    quad_add,
    quad_first_half,
    quad_mul,
    quad_scale,
    quad_second_half,
    quad_square,
    quad_sub,
    zero_quad,
};

verus! {

/// A number `self.0 + self.1·i + self.2·ε + self.3·iε` with integer components.
#[derive(PartialEq, Eq, Structural, Debug, Clone, Copy)]
pub struct BiCompNum(pub i64, pub i64, pub i64, pub i64);

impl View for BiCompNum {
    type V = Quad;

    open spec fn view(&self) -> Quad {
        (self.0 as int, self.1 as int, self.2 as int, self.3 as int)
    }
}

/// The number whose components are those of `q`, each taken as an `i64`.
pub open spec fn from_quad(q: Quad) -> BiCompNum {
    BiCompNum(q.0 as i64, q.1 as i64, q.2 as i64, q.3 as i64)
}

/// Bounds on the product of two `i64` values.
proof fn lemma_i64_product_bounds(x: int, y: int)
    requires
        i64::MIN <= x <= i64::MAX,
        i64::MIN <= y <= i64::MAX,
    ensures
        -0x3fff_ffff_ffff_ffff_8000_0000_0000_0000 <= x * y <= 0x4000_0000_0000_0000_0000_0000_0000_0000,
{
    assert(-0x3fff_ffff_ffff_ffff_8000_0000_0000_0000 <= x * y <= 0x4000_0000_0000_0000_0000_0000_0000_0000)
        by (nonlinear_arith)
        requires
            -0x8000_0000_0000_0000 <= x <= 0x7fff_ffff_ffff_ffff,
            -0x8000_0000_0000_0000 <= y <= 0x7fff_ffff_ffff_ffff,
    ;
}

impl BiCompNum {
    /// Builds a number from its four components.
    pub fn new(a: i64, b: i64, c: i64, d: i64) -> (r: Self)
        ensures
            r@ == (a as int, b as int, c as int, d as int),
    {
        BiCompNum(a, b, c, d)
    }

    /// Builds a number from four `i32` components.
    pub fn new_i(a: i32, b: i32, c: i32, d: i32) -> (r: Self)
        ensures
            r@ == (a as int, b as int, c as int, d as int),
    {
        BiCompNum(a as i64, b as i64, c as i64, d as i64)
    }

    /// `0`
    pub fn zero() -> (r: Self)
        ensures
            r@ == zero_quad(),
    {
        BiCompNum(0, 0, 0, 0)
    }

    /// `1`
    pub fn one() -> (r: Self)
        ensures
            r@ == one_quad(),
    {
        BiCompNum(1, 0, 0, 0)
    }

    /// The imaginary unit `i`.
    pub fn i() -> (r: Self)
        ensures
            r@ == (0int, 1int, 0int, 0int),
    {
        BiCompNum(0, 1, 0, 0)
    }

    /// The dual unit `ε`.
    pub fn epsilon() -> (r: Self)
        ensures
            r@ == (0int, 0int, 1int, 0int),
    {
        BiCompNum(0, 0, 1, 0)
    }

    /// `self²`, computed from the expanded formula
    /// `(a² - b²) + 2ab·i + (2ac - 2bd)·ε + (2ad + 2bc)·iε`.
    pub fn square(self) -> (r: Self)
        requires
            fits_i64(quad_square(self@)),
        ensures
            r@ == quad_square(self@),
    {
        let a = self.0 as i128;
        let b = self.1 as i128;
        let c = self.2 as i128;
        let d = self.3 as i128;
        proof {
            lemma_i64_product_bounds(a as int, a as int);
            lemma_i64_product_bounds(b as int, b as int);
            lemma_i64_product_bounds(a as int, c as int);
            lemma_i64_product_bounds(b as int, d as int);
            lemma_i64_product_bounds(a as int, d as int);
            lemma_i64_product_bounds(b as int, c as int);
            assert(2 * a * c - 2 * b * d == 2 * (a * c - b * d)) by (nonlinear_arith);
            assert(2 * a * d + 2 * b * c == 2 * (a * d + b * c)) by (nonlinear_arith);
            assert(2 * a * b == 2 * (a * b)) by (nonlinear_arith);
        }
        let r0 = a * a - b * b;
        let r1 = 2 * (a * b);
        let r2 = 2 * (a * c - b * d);
        let r3 = 2 * (a * d + b * c);
        BiCompNum(r0 as i64, r1 as i64, r2 as i64, r3 as i64)
    }

    /// Whether every component is zero.
    pub fn is_zero(&self) -> (r: bool)
        ensures
            r == (self@ == zero_quad()),
    {
        self.0 == 0 && self.1 == 0 && self.2 == 0 && self.3 == 0
    }

    /// Whether this is the number `1`.
    pub fn is_one(&self) -> (r: bool)
        ensures
            r == (self@ == one_quad()),
    {
        self.0 == 1 && self.1 == 0 && self.2 == 0 && self.3 == 0
    }

    /// The Gaussian part `a + b·i`.
    pub fn first_half(&self) -> (r: BiCompNum)
        ensures
            r@ == quad_first_half(self@),
            r.2 == 0 && r.3 == 0,
            r@ == quad_sub(self@, quad_second_half(self@)),
    {
        BiCompNum(self.0, self.1, 0, 0)
    }

    /// The ε part `c·ε + d·iε`.
    pub fn second_half(&self) -> (r: BiCompNum)
        ensures
            r@ == quad_second_half(self@),
            r.0 == 0 && r.1 == 0,
            r@ == quad_sub(self@, quad_first_half(self@)),
    {
        BiCompNum(0, 0, self.2, self.3)
    }
}

impl core::ops::Add for BiCompNum {
    type Output = BiCompNum;

    /// Component-wise sum.
    fn add(self, rhs: BiCompNum) -> (r: BiCompNum)
        ensures
            r@ == quad_add(self@, rhs@),
    {
        BiCompNum(self.0 + rhs.0, self.1 + rhs.1, self.2 + rhs.2, self.3 + rhs.3)
    }
}

impl vstd::std_specs::ops::AddSpecImpl for BiCompNum {
    open spec fn obeys_add_spec() -> bool {
        true
    }

    open spec fn add_req(self, rhs: BiCompNum) -> bool {
        fits_i64(quad_add(self@, rhs@))
    }

    open spec fn add_spec(self, rhs: BiCompNum) -> BiCompNum {
        from_quad(quad_add(self@, rhs@))
    }
}

impl core::ops::AddAssign for BiCompNum {
    /// Replaces `self` by `self + rhs`.
    fn add_assign(&mut self, rhs: BiCompNum)
        requires
            fits_i64(quad_add(old(self)@, rhs@)),
        ensures
            final(self)@ == quad_add(old(self)@, rhs@),
    {
        *self = *self + rhs;
    }
}

impl core::ops::Sub for BiCompNum {
    type Output = BiCompNum;

    /// Component-wise difference.
    fn sub(self, rhs: BiCompNum) -> (r: BiCompNum)
        ensures
            r@ == quad_sub(self@, rhs@),
    {
        BiCompNum(self.0 - rhs.0, self.1 - rhs.1, self.2 - rhs.2, self.3 - rhs.3)
    }
}

impl vstd::std_specs::ops::SubSpecImpl for BiCompNum {
    open spec fn obeys_sub_spec() -> bool {
        true
    }

    open spec fn sub_req(self, rhs: BiCompNum) -> bool {
        fits_i64(quad_sub(self@, rhs@))
    }

    open spec fn sub_spec(self, rhs: BiCompNum) -> BiCompNum {
        from_quad(quad_sub(self@, rhs@))
    }
}

impl core::ops::SubAssign for BiCompNum {
    /// Replaces `self` by `self - rhs`.
    fn sub_assign(&mut self, rhs: BiCompNum)
        requires
            fits_i64(quad_sub(old(self)@, rhs@)),
        ensures
            final(self)@ == quad_sub(old(self)@, rhs@),
    {
        *self = *self - rhs;
    }
}

impl core::ops::Mul for BiCompNum {
    type Output = BiCompNum;

    /// The product `(z1 + w1·ε)(z2 + w2·ε) = z1·z2 + (z1·w2 + w1·z2)·ε`;
    /// a zero factor gives zero at once.
    fn mul(self, rhs: BiCompNum) -> (r: BiCompNum)
        ensures
            r@ == quad_mul(self@, rhs@),
    {
        if self.is_zero() || rhs.is_zero() {
            proof {
                lemma_mul_identity_and_zero(self@);
                lemma_mul_identity_and_zero(rhs@);
            }
            return BiCompNum::zero();
        }
        let a0 = self.0 as i128;
        let a1 = self.1 as i128;
        let a2 = self.2 as i128;
        let a3 = self.3 as i128;
        let b0 = rhs.0 as i128;
        let b1 = rhs.1 as i128;
        let b2 = rhs.2 as i128;
        let b3 = rhs.3 as i128;
        proof {
            lemma_i64_product_bounds(a0 as int, b0 as int);
            lemma_i64_product_bounds(a1 as int, b1 as int);
            lemma_i64_product_bounds(a0 as int, b1 as int);
            lemma_i64_product_bounds(a1 as int, b0 as int);
            lemma_i64_product_bounds(a0 as int, b2 as int);
            lemma_i64_product_bounds(a1 as int, b3 as int);
            lemma_i64_product_bounds(b0 as int, a2 as int);
            lemma_i64_product_bounds(a3 as int, b1 as int);
            lemma_i64_product_bounds(a0 as int, b3 as int);
            lemma_i64_product_bounds(a1 as int, b2 as int);
            lemma_i64_product_bounds(b1 as int, a2 as int);
            lemma_i64_product_bounds(b0 as int, a3 as int);
        }
        let r0 = a0 * b0 - a1 * b1;
        let r1 = a0 * b1 + a1 * b0;
        let r2 = (a0 * b2 - a1 * b3) + (b0 * a2 - a3 * b1);
        let r3 = (a0 * b3 + a1 * b2) + (b1 * a2 + b0 * a3);
        BiCompNum(r0 as i64, r1 as i64, r2 as i64, r3 as i64)
    }
}

impl vstd::std_specs::ops::MulSpecImpl for BiCompNum {
    open spec fn obeys_mul_spec() -> bool {
        true
    }

    open spec fn mul_req(self, rhs: BiCompNum) -> bool {
        fits_i64(quad_mul(self@, rhs@))
    }

    open spec fn mul_spec(self, rhs: BiCompNum) -> BiCompNum {
        from_quad(quad_mul(self@, rhs@))
    }
}

impl core::ops::MulAssign for BiCompNum {
    /// Replaces `self` by `self * rhs`.
    fn mul_assign(&mut self, rhs: BiCompNum)
        requires
            fits_i64(quad_mul(old(self)@, rhs@)),
        ensures
            final(self)@ == quad_mul(old(self)@, rhs@),
    {
        *self = *self * rhs;
    }
}

impl core::ops::Mul<i64> for BiCompNum {
    type Output = BiCompNum;

    /// Every component multiplied by the integer `rhs`.
    fn mul(self, rhs: i64) -> (r: BiCompNum)
        ensures
            r@ == quad_scale(self@, rhs as int),
    {
        BiCompNum(self.0 * rhs, self.1 * rhs, self.2 * rhs, self.3 * rhs)
    }
}

impl vstd::std_specs::ops::MulSpecImpl<i64> for BiCompNum {
    open spec fn obeys_mul_spec() -> bool {
        true
    }

    open spec fn mul_req(self, rhs: i64) -> bool {
        fits_i64(quad_scale(self@, rhs as int))
    }

    open spec fn mul_spec(self, rhs: i64) -> BiCompNum {
        from_quad(quad_scale(self@, rhs as int))
    }
}

} // verus!
