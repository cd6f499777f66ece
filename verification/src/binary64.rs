//! The order of IEEE-754 binary64 values, stated over their bit encodings.
//!
//! An encoding is a sign bit followed by a 63-bit magnitude field (exponent
//! and mantissa). Within one sign the real value grows with the magnitude
//! field; the all-ones exponent with a zero mantissa is infinity, and with a
//! non-zero mantissa it is a NaN, which is unordered. Both zeros denote the
//! same real number.
use vstd::prelude::*;

verus! {

/// The sign bit of an encoding.
pub const SIGN_BIT: u64 = 0x8000_0000_0000_0000;

/// The encoding of positive infinity; every larger magnitude field is a NaN.
pub const INFINITY_MAGNITUDE: u64 = 0x7FF0_0000_0000_0000;

/// The encoding of positive zero.
pub const POSITIVE_ZERO: u64 = 0;

/// The magnitude field of an encoding: everything but the sign bit.
pub open spec fn magnitude(bits: u64) -> int {
    (bits % 0x8000_0000_0000_0000) as int
}

/// Whether the sign bit is set.
pub open spec fn is_negative(bits: u64) -> bool {
    bits >= 0x8000_0000_0000_0000
}

/// Whether the encoding is a NaN.
pub open spec fn is_nan(bits: u64) -> bool {
    magnitude(bits) > 0x7FF0_0000_0000_0000
}

/// The position of a non-NaN encoding on the real line: an integer that is
/// ordered exactly as the denoted values are (both zeros have rank 0).
pub open spec fn rank(bits: u64) -> int {
    if is_negative(bits) {
        -magnitude(bits)
    } else {
        magnitude(bits)
    }
}

/// IEEE-754 `<`: both operands are numbers and the first denotes a smaller
/// value than the second. Any comparison with a NaN is false.
pub open spec fn less(a: u64, b: u64) -> bool {
    &&& !is_nan(a)
    &&& !is_nan(b)
    &&& rank(a) < rank(b)
}

/// The encoding of the absolute value: the sign bit cleared.
pub open spec fn abs_spec(bits: u64) -> u64 {
    (bits % 0x8000_0000_0000_0000) as u64
}

/// `a < b` on the values that two encodings denote.
pub fn less_than(a: u64, b: u64) -> (r: bool)
    ensures
        r == less(a, b),
{
    let ma = a % SIGN_BIT;
    let mb = b % SIGN_BIT;
    if ma > INFINITY_MAGNITUDE || mb > INFINITY_MAGNITUDE {
        false
    } else if a >= SIGN_BIT {
        if b >= SIGN_BIT {
            mb < ma
        } else {
            ma != 0 || mb != 0
        }
    } else if b >= SIGN_BIT {
        false
    } else {
        ma < mb
    }
}

/// The encoding of `|x|` for the encoding of `x`.
pub fn abs_bits(bits: u64) -> (r: u64)
    ensures
        r == abs_spec(bits),
        !is_negative(r),
        is_nan(r) == is_nan(bits),
        rank(r) == if rank(bits) < 0 { -rank(bits) } else { rank(bits) },
{
    bits % SIGN_BIT
}

/// `less` is a strict order on the numbers: irreflexive and transitive, and
/// any two numbers are comparable unless they denote the same value.
pub proof fn lemma_less_is_strict_order(a: u64, b: u64, c: u64)
    ensures
        !less(a, a),
        less(a, b) && less(b, c) ==> less(a, c),
        less(a, b) ==> !less(b, a),
        !is_nan(a) && !is_nan(b) ==> (less(a, b) || less(b, a) || rank(a) == rank(b)),
{
}

} // verus!
