//! IEEE 754 classification and ordering of binary64 and binary32 values,
//! read from their bit patterns (`f64::to_bits`, `f32::to_bits`).
//!
//! A binary64 pattern is a sign bit, an 11-bit exponent field and a 52-bit
//! fraction field; a binary32 pattern is a sign bit, an 8-bit exponent field
//! and a 23-bit fraction field. An all-ones exponent encodes an infinity
//! (zero fraction) or a NaN (non-zero fraction); every other exponent encodes
//! a finite number. Apart from NaN, values are ordered by their sign and
//! magnitude, and the two zeros compare equal.
use vstd::prelude::*;

verus! {

/// The sign bit of a binary64 pattern.
pub open spec fn negative64(b: u64) -> bool {
    b >= 0x8000_0000_0000_0000
}

/// The pattern with its sign bit cleared (the encoding of the absolute value).
pub open spec fn magnitude64(b: u64) -> int {
    if negative64(b) {
        b - 0x8000_0000_0000_0000
    } else {
        b as int
    }
}

/// The 11-bit exponent field.
pub open spec fn exponent64(b: u64) -> int {
    magnitude64(b) / 0x10_0000_0000_0000
}

/// The 52-bit fraction field.
pub open spec fn fraction64(b: u64) -> int {
    magnitude64(b) % 0x10_0000_0000_0000
}

/// The value is neither an infinity nor a NaN.
pub open spec fn finite64(b: u64) -> bool {
    exponent64(b) != 0x7ff
}

/// The value is a NaN.
pub open spec fn nan64(b: u64) -> bool {
    exponent64(b) == 0x7ff && fraction64(b) != 0
}

/// The value is +0.0 or -0.0.
pub open spec fn zero64(b: u64) -> bool {
    magnitude64(b) == 0
}

/// The value compares greater than 0.0.
pub open spec fn positive64(b: u64) -> bool {
    !negative64(b) && !zero64(b) && !nan64(b)
}

/// A key whose integer order is the IEEE order of non-NaN values.
pub open spec fn key64(b: u64) -> int {
    if negative64(b) {
        -magnitude64(b)
    } else {
        magnitude64(b)
    }
}

/// `x < y` under IEEE comparison (false when either is a NaN).
pub open spec fn less64(x: u64, y: u64) -> bool {
    !nan64(x) && !nan64(y) && key64(x) < key64(y)
}

/// The sign bit of a binary32 pattern.
pub open spec fn negative32(b: u32) -> bool {
    b >= 0x8000_0000
}

/// The pattern with its sign bit cleared.
pub open spec fn magnitude32(b: u32) -> int {
    if negative32(b) {
        b - 0x8000_0000
    } else {
        b as int
    }
}

/// The 8-bit exponent field.
pub open spec fn exponent32(b: u32) -> int {
    magnitude32(b) / 0x80_0000
}

/// The 23-bit fraction field.
pub open spec fn fraction32(b: u32) -> int {
    magnitude32(b) % 0x80_0000
}

/// The value is neither an infinity nor a NaN.
pub open spec fn finite32(b: u32) -> bool {
    exponent32(b) != 0xff
}

/// The value is a NaN.
pub open spec fn nan32(b: u32) -> bool {
    exponent32(b) == 0xff && fraction32(b) != 0
}

/// The value is +0.0 or -0.0.
pub open spec fn zero32(b: u32) -> bool {
    magnitude32(b) == 0
}

/// A key whose integer order is the IEEE order of non-NaN values.
pub open spec fn key32(b: u32) -> int {
    if negative32(b) {
        -magnitude32(b)
    } else {
        magnitude32(b)
    }
}

/// `x < y` under IEEE comparison (false when either is a NaN).
pub open spec fn less32(x: u32, y: u32) -> bool {
    !nan32(x) && !nan32(y) && key32(x) < key32(y)
}

/// The binary32 encoding of 0.0.
pub open spec fn zero32_bits() -> u32 {
    0
}

proof fn lemma_fields64(b: u64)
    ensures
        0 <= magnitude64(b) < 0x8000_0000_0000_0000,
        finite64(b) <==> magnitude64(b) < 0x7ff0_0000_0000_0000,
        nan64(b) <==> magnitude64(b) > 0x7ff0_0000_0000_0000,
{
    let m = magnitude64(b);
    assert(0 <= m < 0x8000_0000_0000_0000);
    assert(m < 0x7ff0_0000_0000_0000 <==> m / 0x10_0000_0000_0000 < 0x7ff) by (nonlinear_arith)
        requires
            0 <= m,
    ;
    assert(m / 0x10_0000_0000_0000 <= 0x7ff) by (nonlinear_arith)
        requires
            0 <= m < 0x8000_0000_0000_0000,
    ;
    assert(m > 0x7ff0_0000_0000_0000 <==> (m / 0x10_0000_0000_0000 == 0x7ff && m
        % 0x10_0000_0000_0000 != 0)) by (nonlinear_arith)
        requires
            0 <= m < 0x8000_0000_0000_0000,
    ;
}

proof fn lemma_fields32(b: u32)
    ensures
        0 <= magnitude32(b) < 0x8000_0000,
        finite32(b) <==> magnitude32(b) < 0x7f80_0000,
        nan32(b) <==> magnitude32(b) > 0x7f80_0000,
{
    let m = magnitude32(b);
    assert(0 <= m < 0x8000_0000);
    assert(m < 0x7f80_0000 <==> m / 0x80_0000 < 0xff) by (nonlinear_arith)
        requires
            0 <= m,
    ;
    assert(m / 0x80_0000 <= 0xff) by (nonlinear_arith)
        requires
            0 <= m < 0x8000_0000,
    ;
    assert(m > 0x7f80_0000 <==> (m / 0x80_0000 == 0xff && m % 0x80_0000 != 0)) by (nonlinear_arith)
        requires
            0 <= m < 0x8000_0000,
    ;
}

fn magnitude_of64(b: u64) -> (m: u64)
    ensures
        m == magnitude64(b),
{
    if b >= 0x8000_0000_0000_0000 {
        b - 0x8000_0000_0000_0000
    } else {
        b
    }
}

fn magnitude_of32(b: u32) -> (m: u32)
    ensures
        m == magnitude32(b),
{
    if b >= 0x8000_0000 {
        b - 0x8000_0000
    } else {
        b
    }
}

/// Whether the binary64 value is finite.
pub fn is_finite64(b: u64) -> (r: bool)
    ensures
        r == finite64(b),
{
    proof {
        lemma_fields64(b);
    }
    magnitude_of64(b) < 0x7ff0_0000_0000_0000
}

/// Whether the binary64 value is a NaN.
pub fn is_nan64(b: u64) -> (r: bool)
    ensures
        r == nan64(b),
{
    proof {
        lemma_fields64(b);
    }
    magnitude_of64(b) > 0x7ff0_0000_0000_0000
}

/// Whether the binary64 value compares greater than 0.0.
pub fn is_positive64(b: u64) -> (r: bool)
    ensures
        r == positive64(b),
{
    proof {
        lemma_fields64(b);
    }
    b < 0x8000_0000_0000_0000 && b != 0 && b <= 0x7ff0_0000_0000_0000
}

/// Whether `x < y` under IEEE comparison of binary64 values.
pub fn is_less64(x: u64, y: u64) -> (r: bool)
    ensures
        r == less64(x, y),
{
    proof {
        lemma_fields64(x);
        lemma_fields64(y);
    }
    if is_nan64(x) || is_nan64(y) {
        return false;
    }
    let mx = magnitude_of64(x);
    let my = magnitude_of64(y);
    let nx = x >= 0x8000_0000_0000_0000;
    let ny = y >= 0x8000_0000_0000_0000;
    if nx && ny {
        my < mx
    } else if nx {
        !(mx == 0 && my == 0)
    } else if ny {
        false
    } else {
        mx < my
    }
}

/// Whether the binary32 value is finite.
pub fn is_finite32(b: u32) -> (r: bool)
    ensures
        r == finite32(b),
{
    proof {
        lemma_fields32(b);
    }
    magnitude_of32(b) < 0x7f80_0000
}

/// Whether the binary32 value is a NaN.
pub fn is_nan32(b: u32) -> (r: bool)
    ensures
        r == nan32(b),
{
    proof {
        lemma_fields32(b);
    }
    magnitude_of32(b) > 0x7f80_0000
}

/// Whether `x < y` under IEEE comparison of binary32 values.
pub fn is_less32(x: u32, y: u32) -> (r: bool)
    ensures
        r == less32(x, y),
{
    proof {
        lemma_fields32(x);
        lemma_fields32(y);
    }
    if is_nan32(x) || is_nan32(y) {
        return false;
    }
    let mx = magnitude_of32(x);
    let my = magnitude_of32(y);
    let nx = x >= 0x8000_0000;
    let ny = y >= 0x8000_0000;
    if nx && ny {
        my < mx
    } else if nx {
        !(mx == 0 && my == 0)
    } else if ny {
        false
    } else {
        mx < my
    }
}

/// IEEE comparison of binary64 values other than NaN is a strict order
/// that ranks any two of them, the two zeros being equal: `<` is
/// irreflexive, asymmetric and transitive, and of two values one is less
/// than the other or both have the same key.
pub proof fn lemma_less64_is_an_order(x: u64, y: u64, z: u64)
    requires
        !nan64(x),
        !nan64(y),
        !nan64(z),
    ensures
        !less64(x, x),
        less64(x, y) ==> !less64(y, x),
        less64(x, y) && less64(y, z) ==> less64(x, z),
        less64(x, y) || less64(y, x) || key64(x) == key64(y),
        zero64(x) && zero64(y) ==> key64(x) == key64(y),
{
}

/// A NaN is unordered: it is neither less nor greater than any value, itself
/// included.
pub proof fn lemma_nan64_unordered(x: u64, y: u64)
    requires
        nan64(x),
    ensures
        !less64(x, y),
        !less64(y, x),
        !finite64(x),
{
}

/// The fields are those of the standard layout: the sign is bit 63, the
/// exponent bits 52 to 62 and the fraction bits 0 to 51 of the pattern.
pub proof fn lemma_fields64_follow_bit_layout(b: u64)
    ensures
        negative64(b) == (b >> 63 == 1),
        exponent64(b) == ((b >> 52) & 0x7ff) as int,
        fraction64(b) == (b & 0xf_ffff_ffff_ffff) as int,
{
    assert(b >= 0x8000_0000_0000_0000 <==> b >> 63 == 1) by (bit_vector);
    assert(b >= 0x8000_0000_0000_0000 ==> (b - 0x8000_0000_0000_0000) / 0x10_0000_0000_0000 == (
    b >> 52) & 0x7ff) by (bit_vector);
    assert(b >= 0x8000_0000_0000_0000 ==> (b - 0x8000_0000_0000_0000) % 0x10_0000_0000_0000 == b
        & 0xf_ffff_ffff_ffff) by (bit_vector);
    assert(b < 0x8000_0000_0000_0000 ==> b / 0x10_0000_0000_0000 == (b >> 52) & 0x7ff)
        by (bit_vector);
    assert(b < 0x8000_0000_0000_0000 ==> b % 0x10_0000_0000_0000 == b & 0xf_ffff_ffff_ffff)
        by (bit_vector);
}

/// Negation, which flips the sign bit, keeps a value finite, NaN or zero
/// as it was and mirrors the order: the key of `-x` is minus the key of `x`,
/// so `x < y` exactly when `-y < -x`.
pub proof fn lemma_negation64(x: u64, y: u64)
    ensures
        finite64(x ^ 0x8000_0000_0000_0000) == finite64(x),
        nan64(x ^ 0x8000_0000_0000_0000) == nan64(x),
        zero64(x ^ 0x8000_0000_0000_0000) == zero64(x),
        key64(x ^ 0x8000_0000_0000_0000) == -key64(x),
        less64(x, y) == less64(y ^ 0x8000_0000_0000_0000, x ^ 0x8000_0000_0000_0000),
{
    assert(x >= 0x8000_0000_0000_0000 ==> x ^ 0x8000_0000_0000_0000 == x - 0x8000_0000_0000_0000)
        by (bit_vector);
    assert(x < 0x8000_0000_0000_0000 ==> x ^ 0x8000_0000_0000_0000 == x + 0x8000_0000_0000_0000)
        by (bit_vector);
    assert(y >= 0x8000_0000_0000_0000 ==> y ^ 0x8000_0000_0000_0000 == y - 0x8000_0000_0000_0000)
        by (bit_vector);
    assert(y < 0x8000_0000_0000_0000 ==> y ^ 0x8000_0000_0000_0000 == y + 0x8000_0000_0000_0000)
        by (bit_vector);
}

/// A value is positive exactly when it compares greater than 0.0; zero and
/// every infinity-free negative value are finite, and an infinity is
/// neither finite nor a NaN.
pub proof fn lemma_positive64_is_above_zero(b: u64)
    ensures
        positive64(b) <==> less64(0, b),
        zero64(b) ==> finite64(b),
        magnitude64(b) == 0x7ff0_0000_0000_0000 ==> !finite64(b) && !nan64(b),
{
    lemma_fields64(b);
    lemma_fields64(0);
}

/// The binary32 fields are those of the standard layout: the sign is bit
/// 31, the exponent bits 23 to 30 and the fraction bits 0 to 22.
pub proof fn lemma_fields32_follow_bit_layout(b: u32)
    ensures
        negative32(b) == (b >> 31 == 1),
        exponent32(b) == ((b >> 23) & 0xff) as int,
        fraction32(b) == (b & 0x7f_ffff) as int,
{
    assert(b >= 0x8000_0000 <==> b >> 31 == 1) by (bit_vector);
    assert(b >= 0x8000_0000 ==> (b - 0x8000_0000) / 0x80_0000 == (b >> 23) & 0xff) by (bit_vector);
    assert(b >= 0x8000_0000 ==> (b - 0x8000_0000) % 0x80_0000 == b & 0x7f_ffff) by (bit_vector);
    assert(b < 0x8000_0000 ==> b / 0x80_0000 == (b >> 23) & 0xff) by (bit_vector);
    assert(b < 0x8000_0000 ==> b % 0x80_0000 == b & 0x7f_ffff) by (bit_vector);
}

/// Negation of a binary32 value keeps it finite, NaN or zero as it was and
/// mirrors the order.
pub proof fn lemma_negation32(x: u32, y: u32)
    ensures
        finite32(x ^ 0x8000_0000) == finite32(x),
        nan32(x ^ 0x8000_0000) == nan32(x),
        zero32(x ^ 0x8000_0000) == zero32(x),
        key32(x ^ 0x8000_0000) == -key32(x),
        less32(x, y) == less32(y ^ 0x8000_0000, x ^ 0x8000_0000),
{
    assert(x >= 0x8000_0000 ==> x ^ 0x8000_0000 == x - 0x8000_0000) by (bit_vector);
    assert(x < 0x8000_0000 ==> x ^ 0x8000_0000 == x + 0x8000_0000) by (bit_vector);
    assert(y >= 0x8000_0000 ==> y ^ 0x8000_0000 == y - 0x8000_0000) by (bit_vector);
    assert(y < 0x8000_0000 ==> y ^ 0x8000_0000 == y + 0x8000_0000) by (bit_vector);
}

} // verus!
