//! Algebraic laws of the number system, stated over the model that the
//! operations of `BiCompNum` are specified by.  Together they say that the
//! numbers form a commutative ring with unit `1`, in which `square` is the
//! product of a number with itself and a number whose Gaussian part is zero
//! has no inverse.
use vstd::prelude::*;
use vstd::arithmetic::mul::{
    lemma_mul_is_associative,
    lemma_mul_is_commutative,
    lemma_mul_is_distributive_add,
    lemma_mul_is_distributive_add_other_way,
    lemma_mul_is_distributive_sub,
    lemma_mul_is_distributive_sub_other_way,
};
use crate::model::{
    Quad,
    one_quad,
    quad_add,
    quad_first_half,
    quad_mul,
    quad_scale,
    quad_second_half,
    quad_square,
    quad_sub,
    zero_quad,
};

verus! {

/// Product of Gaussian integers `(a0 + a1·i)(b0 + b1·i)`.
spec fn gmul(a: (int, int), b: (int, int)) -> (int, int) {
    (a.0 * b.0 - a.1 * b.1, a.0 * b.1 + a.1 * b.0)
}

/// Sum of Gaussian integers.
spec fn gadd(a: (int, int), b: (int, int)) -> (int, int) {
    (a.0 + b.0, a.1 + b.1)
}

/// The Gaussian part `z` of `z + w·ε`.
spec fn gauss(x: Quad) -> (int, int) {
    (x.0, x.1)
}

/// The ε coefficient `w` of `z + w·ε`.
spec fn eps(x: Quad) -> (int, int) {
    (x.2, x.3)
}

proof fn lemma_gmul_associative(a: (int, int), b: (int, int), c: (int, int))
    ensures
        gmul(gmul(a, b), c) == gmul(a, gmul(b, c)),
{
    broadcast use
        lemma_mul_is_associative,
        lemma_mul_is_distributive_add,
        lemma_mul_is_distributive_sub,
        lemma_mul_is_distributive_add_other_way,
        lemma_mul_is_distributive_sub_other_way;
}

proof fn lemma_gmul_commutative(a: (int, int), b: (int, int))
    ensures
        gmul(a, b) == gmul(b, a),
{
    broadcast use lemma_mul_is_commutative;
}

proof fn lemma_gmul_distributive(a: (int, int), b: (int, int), c: (int, int))
    ensures
        gmul(a, gadd(b, c)) == gadd(gmul(a, b), gmul(a, c)),
        gmul(gadd(b, c), a) == gadd(gmul(b, a), gmul(c, a)),
{
    broadcast use
        lemma_mul_is_distributive_add,
        lemma_mul_is_distributive_add_other_way;
}

/// `x·y` is `z1·z2 + (z1·w2 + w1·z2)·ε`.
proof fn lemma_mul_in_parts(x: Quad, y: Quad)
    ensures
        gauss(quad_mul(x, y)) == gmul(gauss(x), gauss(y)),
        eps(quad_mul(x, y)) == gadd(gmul(gauss(x), eps(y)), gmul(eps(x), gauss(y))),
{
    broadcast use lemma_mul_is_commutative;
}

/// A quadruple is the pair of its Gaussian part and its ε coefficient.
proof fn lemma_quad_from_parts(x: Quad, y: Quad)
    requires
        gauss(x) == gauss(y),
        eps(x) == eps(y),
    ensures
        x == y,
{
}

/// Multiplication is commutative: `x·y == y·x`.
pub proof fn lemma_mul_commutative(x: Quad, y: Quad)
    ensures
        quad_mul(x, y) == quad_mul(y, x),
{
    lemma_mul_in_parts(x, y);
    lemma_mul_in_parts(y, x);
    lemma_gmul_commutative(gauss(x), gauss(y));
    lemma_gmul_commutative(gauss(x), eps(y));
    lemma_gmul_commutative(eps(x), gauss(y));
    lemma_quad_from_parts(quad_mul(x, y), quad_mul(y, x));
}

/// Multiplication is associative: `(x·y)·z == x·(y·z)`.
pub proof fn lemma_mul_associative(x: Quad, y: Quad, z: Quad)
    ensures
        quad_mul(quad_mul(x, y), z) == quad_mul(x, quad_mul(y, z)),
{
    let (zx, wx) = (gauss(x), eps(x));
    let (zy, wy) = (gauss(y), eps(y));
    let (zz, wz) = (gauss(z), eps(z));
    lemma_mul_in_parts(x, y);
    lemma_mul_in_parts(y, z);
    lemma_mul_in_parts(quad_mul(x, y), z);
    lemma_mul_in_parts(x, quad_mul(y, z));
    // Gaussian part: (zx zy) zz == zx (zy zz)
    lemma_gmul_associative(zx, zy, zz);
    // ε part: (zx zy) wz + (zx wy + wx zy) zz == zx (zy wz + wy zz) + wx (zy zz)
    lemma_gmul_distributive(zz, gmul(zx, wy), gmul(wx, zy));
    lemma_gmul_distributive(zx, gmul(zy, wz), gmul(wy, zz));
    lemma_gmul_associative(zx, zy, wz);
    lemma_gmul_associative(zx, wy, zz);
    lemma_gmul_associative(wx, zy, zz);
    lemma_quad_from_parts(quad_mul(quad_mul(x, y), z), quad_mul(x, quad_mul(y, z)));
}

/// Multiplication distributes over addition: `x·(y + z) == x·y + x·z`.
pub proof fn lemma_mul_distributes_over_add(x: Quad, y: Quad, z: Quad)
    ensures
        quad_mul(x, quad_add(y, z)) == quad_add(quad_mul(x, y), quad_mul(x, z)),
{
    broadcast use
        lemma_mul_is_distributive_add,
        lemma_mul_is_distributive_add_other_way;
}

/// `square` is the product of a number with itself: `x² == x·x`.
pub proof fn lemma_square_is_self_product(x: Quad)
    ensures
        quad_square(x) == quad_mul(x, x),
{
    broadcast use lemma_mul_is_commutative, lemma_mul_is_associative;
}

/// `1` is the multiplicative identity and `0` absorbs every product.
pub proof fn lemma_mul_identity_and_zero(x: Quad)
    ensures
        quad_mul(x, one_quad()) == x,
        quad_mul(one_quad(), x) == x,
        quad_mul(x, zero_quad()) == zero_quad(),
        quad_mul(zero_quad(), x) == zero_quad(),
{
}

/// Multiplying by a unit moves the components as `i² = -1` and `ε² = 0` say:
/// by `i` each Gaussian-integer pair turns a quarter (`a + b·i` becomes
/// `-b + a·i`), by `ε` the Gaussian part becomes the ε part, and by `iε`
/// both happen.  With distributivity and integer scaling this fixes the product.
pub proof fn lemma_mul_by_units(x: Quad)
    ensures
        quad_mul(x, (0, 1, 0, 0)) == (-x.1, x.0, -x.3, x.2),
        quad_mul(x, (0, 0, 1, 0)) == (0int, 0int, x.0, x.1),
        quad_mul(x, (0, 0, 0, 1)) == (0int, 0int, -x.1, x.0),
{
}

/// Scaling commutes with the product: `(k·x)·y == k·(x·y)`.
pub proof fn lemma_scale_commutes_with_mul(x: Quad, y: Quad, k: int)
    ensures
        quad_mul(quad_scale(x, k), y) == quad_scale(quad_mul(x, y), k),
{
    broadcast use
        lemma_mul_is_commutative,
        lemma_mul_is_associative,
        lemma_mul_is_distributive_add_other_way,
        lemma_mul_is_distributive_sub_other_way;
}

/// Addition is commutative and associative, and `0` is its identity.
pub proof fn lemma_add_laws(x: Quad, y: Quad, z: Quad)
    ensures
        quad_add(x, y) == quad_add(y, x),
        quad_add(quad_add(x, y), z) == quad_add(x, quad_add(y, z)),
        quad_add(x, zero_quad()) == x,
{
}

/// Subtraction undoes addition: `(x - y) + y == x` and `(x + y) - y == x`.
pub proof fn lemma_sub_undoes_add(x: Quad, y: Quad)
    ensures
        quad_add(quad_sub(x, y), y) == x,
        quad_sub(quad_add(x, y), y) == x,
        quad_sub(x, x) == zero_quad(),
{
}

/// A number is the sum of its two halves, the Gaussian half has no ε part and
/// the ε half has no Gaussian part (which, with the sum, pins both halves).
pub proof fn lemma_halves_sum(x: Quad)
    ensures
        quad_first_half(x).2 == 0,
        quad_first_half(x).3 == 0,
        quad_second_half(x).0 == 0,
        quad_second_half(x).1 == 0,
        quad_add(quad_first_half(x), quad_second_half(x)) == x,
        quad_mul(quad_second_half(x), quad_second_half(x)) == zero_quad(),
{
}

/// A number whose Gaussian part is zero (a multiple of `ε`) has no inverse:
/// no product with it is `1`.
pub proof fn lemma_pure_epsilon_not_invertible(x: Quad, y: Quad)
    requires
        x.0 == 0,
        x.1 == 0,
    ensures
        quad_mul(x, y) != one_quad(),
        quad_mul(y, x) != one_quad(),
{
}

/// Scaling by an integer `k` is multiplication by the number `k + 0·i + 0·ε + 0·iε`.
pub proof fn lemma_scale_is_mul(x: Quad, k: int)
    ensures
        quad_scale(x, k) == quad_mul(x, (k, 0, 0, 0)),
{
    broadcast use lemma_mul_is_commutative;
}

} // verus!
