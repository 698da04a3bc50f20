use bicomp::BiCompNum;

#[test]
fn units_multiply_as_documented() {
    let i = BiCompNum::i();
    let e = BiCompNum::epsilon();
    assert_eq!(i, BiCompNum(0, 1, 0, 0));
    assert_eq!(e, BiCompNum(0, 0, 1, 0));
    // i² = -1, ε² = 0, i·ε = ε·i = iε
    assert_eq!(i * i, BiCompNum(-1, 0, 0, 0));
    assert_eq!(e * e, BiCompNum::zero());
    assert_eq!(i * e, BiCompNum(0, 0, 0, 1));
    assert_eq!(e * i, BiCompNum(0, 0, 0, 1));
}

#[test]
fn one_plus_epsilon_times_one_minus_epsilon_is_one() {
    let p = BiCompNum::new(1, 0, 1, 0);
    let m = BiCompNum::new(1, 0, -1, 0);
    assert!((p * m).is_one());
}

#[test]
fn product_is_commutative_and_associative() {
    let x = BiCompNum::new(2, -3, 4, 5);
    let y = BiCompNum::new(-1, 7, 0, 3);
    let z = BiCompNum::new(6, 1, -2, -9);
    assert_eq!(x * y, y * x);
    assert_eq!((x * y) * z, x * (y * z));
}

#[test]
fn product_distributes_over_sum() {
    let x = BiCompNum::new(2, -3, 4, 5);
    let y = BiCompNum::new(-1, 7, 0, 3);
    let z = BiCompNum::new(6, 1, -2, -9);
    assert_eq!(x * (y + z), x * y + x * z);
}

#[test]
fn one_is_identity_and_zero_absorbs() {
    let x = BiCompNum::new(2, -3, 4, 5);
    assert_eq!(x * BiCompNum::one(), x);
    assert_eq!(BiCompNum::one() * x, x);
    assert_eq!(x * BiCompNum::zero(), BiCompNum::zero());
    assert_eq!(BiCompNum::zero() * x, BiCompNum::zero());
}

#[test]
fn subtraction_undoes_addition() {
    let x = BiCompNum::new(2, -3, 4, 5);
    let y = BiCompNum::new(-1, 7, 0, 3);
    assert_eq!((x - y) + y, x);
    assert_eq!((x + y) - y, x);
    assert!((x - x).is_zero());
    let mut z = x;
    z -= y;
    assert_eq!(z, BiCompNum::new(3, -10, 4, 2));
}

#[test]
fn halves_add_up() {
    let x = BiCompNum::new(2, -3, 4, 5);
    assert_eq!(x.first_half(), BiCompNum::new(2, -3, 0, 0));
    assert_eq!(x.second_half(), BiCompNum::new(0, 0, 4, 5));
    assert_eq!(x.first_half() + x.second_half(), x);
    assert!((x.second_half() * x.second_half()).is_zero());
}

#[test]
fn square_of_general_number() {
    // (3 + 2i + 5ε - iε)² = (9 - 4) + 12i + (30 + 4)ε + (-6 + 20)iε
    let x = BiCompNum::new(3, 2, 5, -1);
    assert_eq!(x.square(), BiCompNum::new(5, 12, 34, 14));
    assert_eq!(x.square(), x * x);
}

#[test]
fn scaling_by_an_integer() {
    let x = BiCompNum::new(2, -3, 4, 5);
    assert_eq!(x * 3i64, BiCompNum::new(6, -9, 12, 15));
    assert_eq!(x * 3i64, x * BiCompNum::new(3, 0, 0, 0));
}

#[test]
fn is_one_only_for_one() {
    assert!(BiCompNum::one().is_one());
    assert!(!BiCompNum::zero().is_one());
    assert!(!BiCompNum::new(1, 0, 0, 1).is_one());
    assert!(!BiCompNum::new(0, 0, 0, 1).is_zero());
}

#[test]
fn rendering_of_negative_and_extreme_components() {
    assert_eq!(BiCompNum::zero().to_string(), "0 + 0i + 0ε + 0iε");
    assert_eq!(BiCompNum::new(-7, 10, -120, 9).to_string(), "-7 + 10i + -120ε + 9iε");
    assert_eq!(
        BiCompNum::new(i64::MIN, i64::MAX, 0, -1).to_string(),
        "-9223372036854775808 + 9223372036854775807i + 0ε + -1iε"
    );
}

#[test]
fn products_near_the_i64_limits() {
    let big = BiCompNum::new(i64::MIN, 0, 0, 0);
    assert_eq!(big * BiCompNum::one(), big);
    // the real part 9·10^18 is close to i64::MAX, while each partial product
    // of the ε part is far beyond what an i64 intermediate could hold
    let x = BiCompNum::new(3_000_000_000, 0, 0, 1);
    assert_eq!(x * x, BiCompNum::new(9_000_000_000_000_000_000, 0, 0, 6_000_000_000));
    assert_eq!(x.square(), x * x);
    let y = BiCompNum::new(i64::MIN, 0, i64::MAX, 0);
    let z = BiCompNum::new(1, 0, 1, 0);
    // (m + Mε)(1 + ε) = m + (m + M)ε = m - ε
    assert_eq!(y * z, BiCompNum::new(i64::MIN, 0, -1, 0));
}
