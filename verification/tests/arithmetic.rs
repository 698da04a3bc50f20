use bicomp::BiCompNum;

#[test]
fn test_new_i() {
    let n = BiCompNum::new_i(1, 2, 3, 4);
    assert_eq!(n.0, 1);
    assert_eq!(n.1, 2);
    assert_eq!(n.2, 3);
    assert_eq!(n.3, 4);
}

#[test]
fn test_zero() {
    let n = BiCompNum::zero();
    assert_eq!(n, BiCompNum(0, 0, 0, 0));
    assert!(n.is_zero());
}

#[test]
fn test_one() {
    let n = BiCompNum::one();
    assert_eq!(n, BiCompNum(1, 0, 0, 0));
    assert!(!n.is_zero());
}

#[test]
fn test_display() {
    let n = BiCompNum::new_i(1, 2, 3, 4);
    assert_eq!(n.to_string(), "1 + 2i + 3ε + 4iε");
}

#[test]
fn bicomp_test_add() {
    let n1 = BiCompNum::new_i(1, 2, 3, 4);
    let n2 = BiCompNum::new_i(5, 6, 7, 8);
    assert_eq!(n1 + n2, BiCompNum::new_i(6, 8, 10, 12));
}

#[test]
fn test_add_assign() {
    let mut n1 = BiCompNum::new_i(1, 2, 3, 4);
    let n2 = BiCompNum::new_i(5, 6, 7, 8);
    n1 += n2;
    assert_eq!(n1, BiCompNum::new_i(6, 8, 10, 12));
}

#[test]
fn test_sub() {
    let n1 = BiCompNum::new_i(10, 10, 10, 10);
    let n2 = BiCompNum::new_i(1, 2, 3, 4);
    assert_eq!(n1 - n2, BiCompNum::new_i(9, 8, 7, 6));
}

#[test]
fn bicomp_test_mul() {
    assert_eq!(
        BiCompNum::zero() * BiCompNum::new_i(1, 0, 0, 0),
        BiCompNum::zero()
    );
    assert_eq!(
        BiCompNum::new_i(0, 2, 0, 4) * BiCompNum::new_i(0, 2, 0, 4),
        BiCompNum::new_i(-4, 0, -16, 0)
    );
    assert_eq!(
        BiCompNum::new_i(1, 1, 1, 1) * BiCompNum::new_i(1, 1, 1, 1),
        BiCompNum::new_i(0, 2, 0, 4)
    );

    let n1 = BiCompNum::new_i(1, 2, 3, 4);
    let n2 = BiCompNum::new_i(5, 6, 7, 8);
    assert_eq!(n1 * n2, BiCompNum::new_i(-7, 16, -18, 60));
}

#[test]
fn test_mul_assign() {
    let mut n1 = BiCompNum::new_i(1, 2, 3, 4);
    let n2 = BiCompNum::new_i(5, 6, 7, 8);
    n1 *= n2;
    assert_eq!(n1, BiCompNum::new_i(-7, 16, -18, 60));
}

#[test]
fn bicomp_test_square() {
    let num = BiCompNum::new_i(12, -2, 3, 1);
    assert_eq!(num * num, num.square());

    let n = BiCompNum::new_i(1, 1, 1, 1);
    assert_eq!(n.square(), BiCompNum::new_i(0, 2, 0, 4));
}

#[test]
fn main_test_mul() {
    assert_eq!(BiCompNum::zero() * BiCompNum::new_i(1, 0, 0, 0), BiCompNum::zero());
    assert_eq!(
        BiCompNum::new_i(0, 2, 0, 4) * BiCompNum::new_i(0, 2, 0, 4),
        BiCompNum::new_i(-4, 0, -16, 0)
    );
    assert_eq!(
        BiCompNum::new_i(1, 1, 1, 1) * BiCompNum::new_i(1, 1, 1, 1),
        BiCompNum::new_i(0, 2, 0, 4)
    );
    assert_eq!(
        BiCompNum::new_i(0, 2, 0, 4) * BiCompNum::new_i(1, 1, 1, 1),
        BiCompNum::new_i(-2, 2, -6, 6)
    );

    assert_eq!(BiCompNum::zero() * BiCompNum::new_i(1, 1, 1, 1), BiCompNum::zero());
}

#[test]
fn main_test_square() {
    let num = BiCompNum::new_i(12, -2, 3, 1);
    assert_eq!(num * num, num.square())
}
