//! IEEE-754 single-precision numbers, seen as their 32-bit patterns.
//!
//! A pattern is a sign bit, eight exponent bits and twenty-three fraction
//! bits. Clearing the sign bit leaves the magnitude; magnitudes above
//! [`INFINITY`] are NaNs, the magnitude [`INFINITY`] itself is an infinity,
//! and everything below is an ordinary finite number.

use vstd::prelude::*;

verus! {

/// The pattern of positive zero.
pub const ZERO: u32 = 0;

/// The pattern of one.
pub const ONE: u32 = 0x3f80_0000;

/// The pattern of positive infinity: all exponent bits set, no fraction bit.
pub const INFINITY: u32 = 0x7f80_0000;

/// The sign bit alone, which is also the pattern of negative zero.
pub const SIGN_BIT: u32 = 0x8000_0000;

/// The pattern with its sign bit cleared.
pub open spec fn magnitude(bits: u32) -> u32 {
    if bits >= SIGN_BIT {
        (bits - SIGN_BIT) as u32
    } else {
        bits
    }
}

/// The number is a NaN.
pub open spec fn is_nan(bits: u32) -> bool {
    magnitude(bits) > INFINITY
}

/// The number is neither a NaN nor an infinity.
pub open spec fn is_finite(bits: u32) -> bool {
    magnitude(bits) < INFINITY
}

/// The number is greater than zero: positive sign, not zero, not a NaN.
pub open spec fn is_positive(bits: u32) -> bool {
    0 < bits <= INFINITY
}

/// The pattern of the negated number: the same magnitude, the other sign.
pub open spec fn negated(bits: u32) -> u32 {
    if bits >= SIGN_BIT {
        (bits - SIGN_BIT) as u32
    } else {
        (bits + SIGN_BIT) as u32
    }
}

/// What may be stored in place of `bits`: the number itself when it is
/// finite, positive zero otherwise.
pub open spec fn guarded(bits: u32) -> u32 {
    if is_finite(bits) {
        bits
    } else {
        ZERO
    }
}

/// Tells whether the number is a NaN.
pub fn nan(bits: u32) -> (r: bool)
    ensures
        r == is_nan(bits),
{
    if bits >= SIGN_BIT {
        bits - SIGN_BIT > INFINITY
    } else {
        bits > INFINITY
    }
}

/// Tells whether the number is finite.
pub fn finite(bits: u32) -> (r: bool)
    ensures
        r == is_finite(bits),
{
    if bits >= SIGN_BIT {
        bits - SIGN_BIT < INFINITY
    } else {
        bits < INFINITY
    }
}

/// Tells whether the number is greater than zero.
pub fn positive(bits: u32) -> (r: bool)
    ensures
        r == is_positive(bits),
{
    0 < bits && bits <= INFINITY
}

/// Negates the number by flipping its sign bit. NaNs and infinities keep
/// their kind.
pub fn negate(bits: u32) -> (r: u32)
    ensures
        r == negated(bits),
        magnitude(r) == magnitude(bits),
        (r >= SIGN_BIT) != (bits >= SIGN_BIT),
{
    if bits >= SIGN_BIT {
        bits - SIGN_BIT
    } else {
        bits + SIGN_BIT
    }
}

/// The guard every coordinate passes before it is stored: a NaN or an
/// infinity is replaced by positive zero, a finite number is kept as it is.
pub fn guard(bits: u32) -> (r: u32)
    ensures
        r == guarded(bits),
        is_finite(r),
        is_nan(bits) ==> r == ZERO,
        is_finite(bits) ==> r == bits,
{
    if finite(bits) {
        bits
    } else {
        ZERO
    }
}

/// Guarding a value that has already been guarded changes nothing.
pub proof fn lemma_guard_idempotent(bits: u32)
    ensures
        guarded(guarded(bits)) == guarded(bits),
{
}

/// Whatever goes in, a finite number comes out of the guard; in particular
/// never a NaN.
pub proof fn lemma_guard_finite(bits: u32)
    ensures
        is_finite(guarded(bits)),
        !is_nan(guarded(bits)),
{
}

/// Negating twice gives the number back.
pub proof fn lemma_negate_involution(bits: u32)
    ensures
        negated(negated(bits)) == bits,
{
}

/// Negation leaves the kind of a number alone, so it commutes with the
/// guard except on zero results, where the guard yields positive zero.
pub proof fn lemma_negate_keeps_kind(bits: u32)
    ensures
        is_nan(negated(bits)) == is_nan(bits),
        is_finite(negated(bits)) == is_finite(bits),
        is_finite(bits) ==> guarded(negated(bits)) == negated(guarded(bits)),
{
}

} // verus!
