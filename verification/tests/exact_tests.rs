use founders_dilemma::exact::Exact;

#[test]
fn a_number_is_held_digit_by_digit() {
    let held = Exact::of(1_234_567);
    assert_eq!(held.digits, vec![567, 234, 1]);
    assert!(!held.negative);
    assert_eq!(held.quotient(0), 1_234_567);
    assert_eq!(held.quotient(1), 1_234);
    assert_eq!(held.quotient(2), 1);
    assert_eq!(held.quotient(3), 0);
    assert_eq!(held.quotient(u128::MAX), 0);
    assert!(Exact::of(0).digits.is_empty());
    assert_eq!(Exact::of(0).quotient(0), 0);
}

#[test]
fn products_are_exact_whatever_their_size() {
    let mut held = Exact::of(999_999_999_999_999);
    for _ in 0..30 {
        held.times(999_999);
    }
    for _ in 0..30 {
        held.times(1_000_001);
    }
    assert!(held.digits.len() > 100);
    assert!(held.digits.iter().all(|d| *d < 1_000));
    assert_eq!(held.quotient(120), 999_999_999_969_999);
}

#[test]
fn the_quotient_is_rounded_toward_zero_and_capped() {
    let mut held = Exact::of(-7);
    held.times(1_500);
    assert_eq!(held.quotient(1), -10);
    assert_eq!(held.quotient(0), -10_500);
    held.times(-1);
    assert_eq!(held.quotient(1), 10);
    let mut large = Exact::of(i64::MIN);
    large.times(i64::MIN);
    assert_eq!(large.quotient(0), 1_000_000_000_000_000);
    large.times(-1);
    assert_eq!(large.quotient(0), -1_000_000_000_000_000);
    assert_eq!(large.quotient(11), -85_070);
    assert_eq!(large.quotient(12), -85);
    large.times(0);
    assert_eq!(large.quotient(0), 0);
}
