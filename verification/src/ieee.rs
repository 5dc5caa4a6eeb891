//! Single-precision reals held as their IEEE-754 bit patterns.
//!
//! Scores, weights and thresholds of the cognitive architecture are
//! single-precision values. The library carries them as the `u32` bit pattern
//! of the value (`f32::to_bits` / `f32::from_bits` at the application edge) and
//! decides comparisons on those patterns exactly as IEEE-754 orders the values:
//! NaN is unordered, `-0.0 == +0.0`, and otherwise values order by sign and
//! magnitude. Arithmetic on the values is left to the application layer.
use vstd::prelude::*;

verus! {

/// The bit pattern of a single-precision value.
pub type Real = u32;

/// The sign bit of a single-precision pattern.
pub open spec fn sign_bit() -> nat {
    0x8000_0000
}

/// The pattern encodes NaN: all exponent bits set and a non-zero mantissa.
pub open spec fn is_nan(x: Real) -> bool {
    (x as nat) % sign_bit() > 0x7F80_0000
}

/// The position of a non-NaN pattern on the real line: patterns order by
/// sign and magnitude, and both zeros sit at position 0.
pub open spec fn rank(x: Real) -> int {
    if (x as nat) >= sign_bit() {
        -(((x as nat) - sign_bit()) as int)
    } else {
        x as int
    }
}

/// IEEE-754 `x < y`.
pub open spec fn spec_lt(x: Real, y: Real) -> bool {
    !is_nan(x) && !is_nan(y) && rank(x) < rank(y)
}

/// IEEE-754 `x <= y`.
pub open spec fn spec_le(x: Real, y: Real) -> bool {
    !is_nan(x) && !is_nan(y) && rank(x) <= rank(y)
}

/// IEEE-754 `x == y`.
pub open spec fn spec_eq(x: Real, y: Real) -> bool {
    !is_nan(x) && !is_nan(y) && rank(x) == rank(y)
}

/// `f32::clamp(x, lo, hi)`: `lo` below the range, `hi` above it, `x` otherwise (NaN stays NaN).
pub open spec fn spec_clamp(x: Real, lo: Real, hi: Real) -> Real {
    if spec_lt(x, lo) {
        lo
    } else if spec_lt(hi, x) {
        hi
    } else {
        x
    }
}

/// Whether a pattern encodes NaN.
pub fn real_is_nan(x: Real) -> (b: bool)
    ensures
        b == is_nan(x),
{
    x % 0x8000_0000 > 0x7F80_0000
}

fn real_rank(x: Real) -> (r: i64)
    ensures
        r == rank(x),
{
    if x >= 0x8000_0000 {
        -((x - 0x8000_0000) as i64)
    } else {
        x as i64
    }
}

/// IEEE-754 `x < y` on bit patterns.
pub fn real_lt(x: Real, y: Real) -> (b: bool)
    ensures
        b == spec_lt(x, y),
{
    !real_is_nan(x) && !real_is_nan(y) && real_rank(x) < real_rank(y)
}

/// IEEE-754 `x <= y` on bit patterns.
pub fn real_le(x: Real, y: Real) -> (b: bool)
    ensures
        b == spec_le(x, y),
{
    !real_is_nan(x) && !real_is_nan(y) && real_rank(x) <= real_rank(y)
}

/// `f32::clamp` on bit patterns; the bounds must be ordered and not NaN, as `f32::clamp` requires.
pub fn real_clamp(x: Real, lo: Real, hi: Real) -> (r: Real)
    requires
        spec_le(lo, hi),
    ensures
        r == spec_clamp(x, lo, hi),
        !is_nan(x) ==> spec_le(lo, r) && spec_le(r, hi),
{
    if real_lt(x, lo) {
        lo
    } else if real_lt(hi, x) {
        hi
    } else {
        x
    }
}

/// The ordering is that of the reals: `<` is irreflexive and transitive, every
/// two non-NaN values are comparable, and `<=` is `<` or `==`.
pub proof fn lemma_real_order(x: Real, y: Real, z: Real)
    ensures
        !spec_lt(x, x),
        spec_lt(x, y) && spec_lt(y, z) ==> spec_lt(x, z),
        !is_nan(x) && !is_nan(y) ==> spec_lt(x, y) || spec_eq(x, y) || spec_lt(y, x),
        spec_le(x, y) <==> (spec_lt(x, y) || spec_eq(x, y)),
        is_nan(x) ==> !spec_lt(x, y) && !spec_lt(y, x) && !spec_eq(x, y),
{
}

/// The pattern of `0.0`.
pub open spec fn zero() -> Real {
    0x0000_0000
}

/// The pattern of `1.0`.
pub open spec fn one() -> Real {
    0x3F80_0000
}

} // verus!
