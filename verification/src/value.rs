//! Exact 256-bit unsigned arithmetic.
//!
//! A [`Value`] is a pair of 128-bit limbs, low limb first. Every operation
//! treats the pair as one number, [`value_of`]; none wraps.

use std::cmp::Ordering;
use vstd::prelude::*;

use crate::error::Error;

verus! {

/// A 256-bit amount of currency: `[low limb, high limb]`.
pub type Value = [u128; 2];

/// The largest number a [`Value`] can hold, 2^256 - 1.
pub open spec fn max_value() -> nat {
    0xffff_ffff_ffff_ffff_ffff_ffff_ffff_ffff_ffff_ffff_ffff_ffff_ffff_ffff_ffff_ffffnat
}

/// The number that the two limbs stand for: the low limb plus 2^128 times
/// the high limb.
pub open spec fn value_of(v: Value) -> nat {
    (v[0] + v[1] * 0x1_0000_0000_0000_0000_0000_0000_0000_0000) as nat
}

/// Every [`Value`] stands for a number of at most 256 bits.
pub proof fn lemma_value_bounded(v: Value)
    ensures
        value_of(v) <= max_value(),
{
}

/// Two values that stand for the same number are the same value.
pub proof fn lemma_value_of_injective(a: Value, b: Value)
    requires
        value_of(a) == value_of(b),
    ensures
        a == b,
{
    assert(a[0] == b[0] && a[1] == b[1]);
    assert(a =~= b);
}

/// The value that stands for zero.
pub fn zero() -> (v: Value)
    ensures
        value_of(v) == 0,
{
    [0u128, 0u128]
}

/// Whether `v` stands for zero.
pub fn is_zero(v: &Value) -> (r: bool)
    ensures
        r == (value_of(*v) == 0),
{
    v[0] == 0 && v[1] == 0
}

/// Whether `a` stands for a number smaller than `b` does.
pub fn less_than(a: &Value, b: &Value) -> (r: bool)
    ensures
        r == (value_of(*a) < value_of(*b)),
{
    a[1] < b[1] || (a[1] == b[1] && a[0] < b[0])
}

/// How the number of `a` stands to the number of `b`.
pub fn compare(a: &Value, b: &Value) -> (r: Ordering)
    ensures
        match r {
            Ordering::Less => value_of(*a) < value_of(*b),
            Ordering::Equal => value_of(*a) == value_of(*b),
            Ordering::Greater => value_of(*a) > value_of(*b),
        },
{
    if a[1] < b[1] {
        Ordering::Less
    } else if a[1] > b[1] {
        Ordering::Greater
    } else if a[0] < b[0] {
        Ordering::Less
    } else if a[0] > b[0] {
        Ordering::Greater
    } else {
        Ordering::Equal
    }
}

/// The sum of `a` and `b`, where it fits in 256 bits.
pub fn sum(a: &Value, b: &Value) -> (v: Value)
    requires
        value_of(*a) + value_of(*b) <= max_value(),
    ensures
        value_of(v) == value_of(*a) + value_of(*b),
{
    if a[0] <= u128::MAX - b[0] {
        [a[0] + b[0], a[1] + b[1]]
    } else {
        [a[0] - (u128::MAX - b[0]) - 1, a[1] + b[1] + 1]
    }
}

/// The difference of `a` and `b`, where `a` is not the smaller.
pub fn difference(a: &Value, b: &Value) -> (v: Value)
    requires
        value_of(*a) >= value_of(*b),
    ensures
        value_of(v) == value_of(*a) - value_of(*b),
{
    if a[0] >= b[0] {
        [a[0] - b[0], a[1] - b[1]]
    } else {
        [u128::MAX - b[0] + a[0] + 1, a[1] - b[1] - 1]
    }
}

/// The sum of `a` and `b`, or `ValueOverflow` where it exceeds 256 bits.
pub fn checked_add(a: &Value, b: &Value) -> (r: Result<Value, Error>)
    ensures
        match r {
            Ok(v) => value_of(v) == value_of(*a) + value_of(*b),
            Err(e) => e == Error::ValueOverflow && value_of(*a) + value_of(*b) > max_value(),
        },
{
    let carry: u128 = if a[0] <= u128::MAX - b[0] {
        0
    } else {
        1
    };
    if a[1] > u128::MAX - b[1] || a[1] + b[1] > u128::MAX - carry {
        Err(Error::ValueOverflow)
    } else {
        Ok(sum(a, b))
    }
}

/// The difference of `a` and `b`, or `ValueUnderflow` where `a` is the smaller.
pub fn checked_sub(a: &Value, b: &Value) -> (r: Result<Value, Error>)
    ensures
        match r {
            Ok(v) => value_of(v) == value_of(*a) - value_of(*b),
            Err(e) => e == Error::ValueUnderflow && value_of(*a) < value_of(*b),
        },
{
    if less_than(a, b) {
        Err(Error::ValueUnderflow)
    } else {
        Ok(difference(a, b))
    }
}

} // verus!
