use rebalancer_admin::math::{checked_quotient, fraction_at_most, isqrt, isqrt_of_product};

#[test]
fn isqrt_of_nothing_is_zero() {
    assert_eq!(isqrt(0), 0);
    assert_eq!(isqrt(-1), 0);
    assert_eq!(isqrt(i128::MIN), 0);
}

#[test]
fn isqrt_rounds_down() {
    let roots = [0, 1, 1, 1, 2, 2, 2, 2, 2, 3, 3, 3, 3, 3, 3, 3, 4];
    for (n, root) in roots.iter().enumerate() {
        assert_eq!(isqrt(n as i128), *root);
    }
    assert_eq!(isqrt(999_999), 999);
    assert_eq!(isqrt(1_000_000), 1_000);
    assert_eq!(isqrt(500_000_000_000_000_000), 707_106_781);
}

#[test]
fn isqrt_reaches_the_end_of_its_range() {
    assert_eq!(isqrt(i128::MAX - 1), 13_043_817_825_332_782_212);
    assert_eq!(isqrt(i128::MAX), 13_043_817_825_332_782_212);
}

#[test]
fn fractions_are_compared_exactly() {
    assert!(fraction_at_most(1, 3, 2, 6));
    assert!(fraction_at_most(0, 5, 0, 7));
    assert!(fraction_at_most(1, 3, 1, 2));
    assert!(!fraction_at_most(1, 2, 1, 3));
    assert!(!fraction_at_most(1, 2, 0, 3));
    assert!(fraction_at_most(355, 113, 22, 7));
    assert!(!fraction_at_most(22, 7, 355, 113));
    assert!(fraction_at_most(i128::MAX - 1, i128::MAX, i128::MAX - 1, i128::MAX));
    assert!(fraction_at_most(i128::MAX - 2, i128::MAX - 1, i128::MAX - 1, i128::MAX));
    assert!(!fraction_at_most(i128::MAX - 1, i128::MAX, i128::MAX - 2, i128::MAX - 1));
}

#[test]
fn root_of_a_product_is_exact() {
    assert_eq!(isqrt_of_product(100, 4, 1), 20);
    assert_eq!(isqrt_of_product(101, 4, 25), 4);
    assert_eq!(isqrt_of_product(i128::MAX, 0, 3), 0);
    assert_eq!(isqrt_of_product(i128::MAX, i128::MAX, 1), i128::MAX);
    assert_eq!(
        isqrt_of_product(
            1_000_000_000_000_000_000_000_000_000_000,
            100_000_000_000_000_000_000,
            7
        ),
        3_779_644_730_092_272_272_145_165
    );
}

#[test]
fn quotients_round_toward_zero() {
    assert_eq!(checked_quotient(7, 2), Some(3));
    assert_eq!(checked_quotient(-7, 2), Some(-3));
    assert_eq!(checked_quotient(7, -2), Some(-3));
    assert_eq!(checked_quotient(-7, -2), Some(3));
    assert_eq!(checked_quotient(i128::MIN, 1), Some(i128::MIN));
    assert_eq!(checked_quotient(i128::MIN, -1), None);
    assert_eq!(checked_quotient(1, 0), None);
}
