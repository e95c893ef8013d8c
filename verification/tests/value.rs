use deth_token::error::Error;
use deth_token::value::{
    checked_add, checked_sub, compare, difference, is_zero, less_than, sum, zero,
};
use std::cmp::Ordering;

#[test]
fn add_carries_from_the_low_limb_into_the_high_limb() {
    assert_eq!(checked_add(&[u128::MAX, 0], &[1, 0]), Ok([0, 1]));
    assert_eq!(checked_add(&[u128::MAX, 4], &[u128::MAX, 2]), Ok([u128::MAX - 1, 7]));
}

#[test]
fn add_fails_on_overflow() {
    assert_eq!(checked_add(&[u128::MAX, u128::MAX], &[1, 0]), Err(Error::ValueOverflow));
    assert_eq!(checked_add(&[0, u128::MAX], &[0, 1]), Err(Error::ValueOverflow));
    assert_eq!(checked_add(&[u128::MAX, u128::MAX], &[0, 0]), Ok([u128::MAX, u128::MAX]));
}

#[test]
fn sub_borrows_from_the_high_limb() {
    assert_eq!(checked_sub(&[0, 1], &[1, 0]), Ok([u128::MAX, 0]));
    assert_eq!(checked_sub(&[5, 9], &[7, 3]), Ok([u128::MAX - 1, 5]));
}

#[test]
fn sub_fails_on_underflow() {
    assert_eq!(checked_sub(&[0, 0], &[1, 0]), Err(Error::ValueUnderflow));
    assert_eq!(checked_sub(&[u128::MAX, 0], &[0, 1]), Err(Error::ValueUnderflow));
    assert_eq!(checked_sub(&[3, 1], &[3, 1]), Ok([0, 0]));
}

#[test]
fn compare_reads_the_limbs_as_one_number() {
    assert_eq!(compare(&[u128::MAX, 0], &[0, 1]), Ordering::Less);
    assert_eq!(compare(&[0, 1], &[u128::MAX, 0]), Ordering::Greater);
    assert_eq!(compare(&[7, 7], &[7, 7]), Ordering::Equal);
    assert_eq!(compare(&[6, 7], &[7, 7]), Ordering::Less);
}

#[test]
fn is_zero_looks_at_both_limbs() {
    assert!(is_zero(&[0, 0]));
    assert!(!is_zero(&[0, 1]));
    assert!(!is_zero(&[1, 0]));
}

#[test]
fn every_error_has_its_own_message() {
    let errors = [
        Error::BadSignature,
        Error::NonceReused,
        Error::InsufficientBalance,
        Error::InsufficientAllowance,
        Error::ValueOverflow,
        Error::ValueUnderflow,
    ];
    for (i, a) in errors.iter().enumerate() {
        assert!(!a.message().is_empty());
        for b in errors.iter().skip(i + 1) {
            assert_ne!(a.message(), b.message());
        }
    }
    assert_eq!(Error::NonceReused.message(), "the signer has already used this nonce");
}

#[test]
fn exact_sum_and_difference() {
    assert_eq!(sum(&[u128::MAX, 1], &[2, 3]), [1, 5]);
    assert_eq!(difference(&[1, 5], &[2, 3]), [u128::MAX, 1]);
    assert_eq!(difference(&[9, 9], &[9, 9]), zero());
    assert!(less_than(&[u128::MAX, 0], &[0, 1]));
    assert!(!less_than(&[0, 1], &[0, 1]));
    assert!(!less_than(&[1, 1], &[0, 1]));
}
