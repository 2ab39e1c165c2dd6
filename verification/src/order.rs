//! Ordering of IEEE-754 double-precision values by their 64-bit encodings.
//!
//! A scalar is carried as the `u64` bit pattern of a double.  For two encodings
//! of non-NaN doubles, `key_of` maps them to integers whose unsigned order is
//! the IEEE total order of the doubles (numeric order, except that it puts the
//! negative zero strictly below the positive zero).  The fitness order used by
//! the optimizer additionally places every NaN encoding above every non-NaN
//! encoding, as the search requires: a NaN fitness must never beat a finite one.

use vstd::prelude::*;

verus! {

/// Sign bit of a double-precision encoding.
pub const SIGN_BIT: u64 = 0x8000_0000_0000_0000;

/// Exponent field of a double-precision encoding.
pub const EXPONENT_MASK: u64 = 0x7FF0_0000_0000_0000;

/// Fraction field of a double-precision encoding.
pub const FRACTION_MASK: u64 = 0x000F_FFFF_FFFF_FFFF;

/// Whether `b` encodes a NaN: exponent all ones and a non-zero fraction.
pub open spec fn is_nan_bits(b: u64) -> bool {
    b & EXPONENT_MASK == EXPONENT_MASK && b & FRACTION_MASK != 0
}

/// Monotone key: unsigned order of keys is the IEEE total order of the
/// encoded doubles (negative values reversed, sign bit flipped on the rest).
pub open spec fn key_of(b: u64) -> u64 {
    if b & SIGN_BIT == SIGN_BIT {
        !b
    } else {
        b | SIGN_BIT
    }
}

/// Total order on encodings of doubles; numeric order on non-NaN values of
/// distinct magnitude, with the negative zero just below the positive zero.
pub open spec fn val_le(a: u64, b: u64) -> bool {
    key_of(a) <= key_of(b)
}

/// `v` lies in the closed range `[lo, hi]` in the total order.
pub open spec fn in_closed_range(v: u64, lo: u64, hi: u64) -> bool {
    val_le(lo, v) && val_le(v, hi)
}

/// Fitness order: every NaN ranks above (worse than) every non-NaN value;
/// non-NaN values rank in the total order.
pub open spec fn fitness_le(a: u64, b: u64) -> bool {
    is_nan_bits(b) || (!is_nan_bits(a) && val_le(a, b))
}

/// Whether `b` encodes a zero (either sign).
pub open spec fn is_zero_bits(b: u64) -> bool {
    b == 0 || b == SIGN_BIT
}

/// Whether `b` encodes a value strictly above zero (false on NaN).
pub open spec fn val_gt_zero(b: u64) -> bool {
    !is_nan_bits(b) && key_of(b) > key_of(0)
}

/// Whether `b` encodes a value strictly below zero (false on NaN).
pub open spec fn val_lt_zero(b: u64) -> bool {
    !is_nan_bits(b) && key_of(b) < key_of(SIGN_BIT)
}

/// The fitness order is total.
pub proof fn lemma_fitness_le_total(a: u64, b: u64)
    ensures
        fitness_le(a, b) || fitness_le(b, a),
{
}

/// The fitness order is transitive.
pub proof fn lemma_fitness_le_transitive(a: u64, b: u64, c: u64)
    ensures
        fitness_le(a, b) && fitness_le(b, c) ==> fitness_le(a, c),
{
}

/// Whether `b` encodes a NaN.
pub fn is_nan(b: u64) -> (r: bool)
    ensures
        r == is_nan_bits(b),
{
    b & EXPONENT_MASK == EXPONENT_MASK && b & FRACTION_MASK != 0
}

fn key(b: u64) -> (r: u64)
    ensures
        r == key_of(b),
{
    if b & SIGN_BIT == SIGN_BIT {
        !b
    } else {
        b | SIGN_BIT
    }
}

/// Compare two encodings in the total order.
pub fn le(a: u64, b: u64) -> (r: bool)
    ensures
        r == val_le(a, b),
{
    key(a) <= key(b)
}

/// Compare two fitness encodings, NaN ranking as worst.
pub fn fitness_is_le(a: u64, b: u64) -> (r: bool)
    ensures
        r == fitness_le(a, b),
{
    if is_nan(b) {
        true
    } else if is_nan(a) {
        false
    } else {
        le(a, b)
    }
}

/// Whether `v` lies in the closed range `[lo, hi]` in the total order.
pub fn in_range(v: u64, lo: u64, hi: u64) -> (r: bool)
    ensures
        r == in_closed_range(v, lo, hi),
{
    le(lo, v) && le(v, hi)
}

/// Whether `b` encodes a zero (either sign).
pub fn is_zero(b: u64) -> (r: bool)
    ensures
        r == is_zero_bits(b),
{
    b == 0 || b == SIGN_BIT
}

/// Whether `b` encodes a value strictly above zero.
pub fn gt_zero(b: u64) -> (r: bool)
    ensures
        r == val_gt_zero(b),
{
    !is_nan(b) && key(b) > key(0)
}

/// Whether `b` encodes a value strictly below zero.
pub fn lt_zero(b: u64) -> (r: bool)
    ensures
        r == val_lt_zero(b),
{
    !is_nan(b) && key(b) < key(SIGN_BIT)
}

} // verus!
