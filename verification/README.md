# bicomp

Bicomplex-dual numbers `a + b·i + c·ε + d·iε`, where `i² = -1`, `ε² = 0` and
`i·ε = ε·i`: the ring of Gaussian-integer dual numbers `z + w·ε`.

- `src/` is the verified library. `BiCompNum` has `i64` components and exact
  arithmetic: construction, `0`, `1`, `i`, `ε`, sum, difference, product,
  square, scaling by an integer, the two halves `z` and `w·ε`, the tests
  `is_zero` / `is_one`, and the text form `a + bi + cε + diε`. Every operation
  is specified over the integer model in `src/model.rs`; an operation whose
  exact result would leave the `i64` range is ruled out by its precondition.
  `src/laws.rs` proves that the numbers form a commutative ring, that `square`
  is `x·x`, and that a multiple of `ε` has no inverse.
- `app/` is the program, which prints the square of `1 + i + ε + iε`, and the
  floating-point variant (`f64` components, division, the exponential),
  which is not verified.
