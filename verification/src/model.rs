//! The mathematical model: a bicomplex-dual number is a quadruple of integers
//! `(a, b, c, d)` standing for `a + b·i + c·ε + d·iε`, with `i² = -1`, `ε² = 0`
//! and `i·ε = ε·i`.  Equivalently it is `z + w·ε` where `z = a + b·i` and
//! `w = c + d·i` are Gaussian integers.
use vstd::prelude::*;

verus! {

/// The value of a bicomplex-dual number: `(a, b, c, d)` is `a + b·i + c·ε + d·iε`.
pub type Quad = (int, int, int, int);

/// `0`
pub open spec fn zero_quad() -> Quad {
    (0, 0, 0, 0)
}

/// `1`
pub open spec fn one_quad() -> Quad {
    (1, 0, 0, 0)
}

/// Component-wise sum.
pub open spec fn quad_add(x: Quad, y: Quad) -> Quad {
    (x.0 + y.0, x.1 + y.1, x.2 + y.2, x.3 + y.3)
}

/// Component-wise difference.
pub open spec fn quad_sub(x: Quad, y: Quad) -> Quad {
    (x.0 - y.0, x.1 - y.1, x.2 - y.2, x.3 - y.3)
}

/// The product `(z1 + w1·ε)(z2 + w2·ε) = z1·z2 + (z1·w2 + w1·z2)·ε`,
/// written out component by component.
pub open spec fn quad_mul(x: Quad, y: Quad) -> Quad {
    (
        x.0 * y.0 - x.1 * y.1,
        x.0 * y.1 + x.1 * y.0,
        x.0 * y.2 - x.1 * y.3 + y.0 * x.2 - x.3 * y.1,
        x.0 * y.3 + x.1 * y.2 + y.1 * x.2 + y.0 * x.3,
    )
}

/// The square `z² + 2·z·w·ε`, written out component by component.
pub open spec fn quad_square(x: Quad) -> Quad {
    (
        x.0 * x.0 - x.1 * x.1,
        2 * x.0 * x.1,
        2 * x.0 * x.2 - 2 * x.1 * x.3,
        2 * x.0 * x.3 + 2 * x.1 * x.2,
    )
}

/// Every component multiplied by the integer `k`.
pub open spec fn quad_scale(x: Quad, k: int) -> Quad {
    (x.0 * k, x.1 * k, x.2 * k, x.3 * k)
}

/// The Gaussian-integer part `a + b·i`, with the ε part dropped.
pub open spec fn quad_first_half(x: Quad) -> Quad {
    (x.0, x.1, 0, 0)
}

/// The ε part `c·ε + d·iε`, with the Gaussian-integer part dropped.
pub open spec fn quad_second_half(x: Quad) -> Quad {
    (0, 0, x.2, x.3)
}

/// Every component lies in the range of `i64`.
pub open spec fn fits_i64(x: Quad) -> bool {
    &&& i64::MIN <= x.0 <= i64::MAX
    &&& i64::MIN <= x.1 <= i64::MAX
    &&& i64::MIN <= x.2 <= i64::MAX
    &&& i64::MIN <= x.3 <= i64::MAX
}

} // verus!
