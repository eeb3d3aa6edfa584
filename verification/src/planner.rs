//! Segment planning: how many clips a source of a given length yields,
//! and where each clip starts. Durations are whole milliseconds.

use vstd::prelude::*;
use crate::errors::SplitError;

verus! {

/// Mathematical ceiling of `a / b` for positive `b`.
pub open spec fn ceil_div(a: int, b: int) -> int
    recommends
        b > 0,
{
    if a % b == 0 {
        a / b
    } else {
        a / b + 1
    }
}

/// The start offset of the 1-based clip `index`: `(index - 1) * clip_ms`.
pub open spec fn start_offset_spec(index: int, clip_ms: int) -> int {
    (index - 1) * clip_ms
}

/// `ceil_div(a, b)` really is the ceiling of `a / b`: it is the least
/// count of windows of length `b` that covers `a`, and at least one
/// window is needed as soon as `a` is positive.
pub proof fn lemma_ceil_div_is_ceiling(a: int, b: int)
    requires
        a >= 0,
        b > 0,
    ensures
        ceil_div(a, b) >= 0,
        ceil_div(a, b) * b >= a,
        (ceil_div(a, b) - 1) * b < a,
        a > 0 ==> ceil_div(a, b) >= 1,
{
    let q = a / b;
    let r = a % b;
    vstd::arithmetic::div_mod::lemma_fundamental_div_mod(a, b);
    vstd::arithmetic::div_mod::lemma_div_pos_is_pos(a, b);
    if r == 0 {
        assert(q * b >= a && (q - 1) * b < a && (a > 0 ==> q >= 1)) by (nonlinear_arith)
            requires
                b * q + r == a,
                r == 0,
                b > 0,
                q >= 0,
        ;
    } else {
        assert((q + 1) * b >= a && q * b < a) by (nonlinear_arith)
            requires
                b * q + r == a,
                0 < r < b,
                b > 0,
        ;
    }
}

/// Every planned clip starts strictly inside the source: for each index
/// `i` of the plan, `(i - 1) * clip_ms < duration_ms`.
pub proof fn lemma_planned_offsets_fit(duration_ms: int, clip_ms: int)
    requires
        duration_ms > 0,
        clip_ms > 0,
    ensures
        forall|i: int|
            1 <= i <= ceil_div(duration_ms, clip_ms) ==> start_offset_spec(i, clip_ms)
                < duration_ms,
{
    let total = ceil_div(duration_ms, clip_ms);
    lemma_ceil_div_is_ceiling(duration_ms, clip_ms);
    assert forall|i: int| 1 <= i <= total implies start_offset_spec(i, clip_ms) < duration_ms by {
        vstd::arithmetic::mul::lemma_mul_inequality(i - 1, total - 1, clip_ms);
    }
}

/// The first clip starts at offset zero, and consecutive clips are
/// exactly one clip length apart.
pub proof fn lemma_start_offsets_step(i: int, clip_ms: int)
    requires
        i >= 1,
    ensures
        start_offset_spec(1, clip_ms) == 0,
        start_offset_spec(i + 1, clip_ms) - start_offset_spec(i, clip_ms) == clip_ms,
{
    assert(start_offset_spec(1, clip_ms) == 0) by (nonlinear_arith);
    assert(i * clip_ms - (i - 1) * clip_ms == clip_ms) by (nonlinear_arith);
}

/// How many clips a source of `duration_ms` yields when cut into pieces
/// of `clip_ms`: the ceiling of their quotient. Non-positive inputs are
/// rejected before planning.
pub fn plan_clip_count(duration_ms: u64, clip_ms: u64) -> (r: Result<u64, SplitError>)
    ensures
        duration_ms > 0 && clip_ms > 0 ==> (r matches Ok(n) && n == ceil_div(
            duration_ms as int,
            clip_ms as int,
        ) && n >= 1),
        duration_ms == 0 || clip_ms == 0 ==> (r matches Err(e) && e is InvalidDuration),
{
    if duration_ms == 0 || clip_ms == 0 {
        return Err(SplitError::InvalidDuration);
    }
    let q: u64 = duration_ms / clip_ms;
    let rem: u64 = duration_ms % clip_ms;
    proof {
        lemma_ceil_div_is_ceiling(duration_ms as int, clip_ms as int);
    }
    if rem == 0 {
        Ok(q)
    } else {
        proof {
            assert(clip_ms >= 2) by {
                if clip_ms == 1 {
                    assert(duration_ms as int % 1 == 0) by (nonlinear_arith);
                }
            }
            vstd::arithmetic::div_mod::lemma_div_is_ordered_by_denominator(
                duration_ms as int,
                2,
                clip_ms as int,
            );
            vstd::arithmetic::div_mod::lemma_div_is_ordered(
                duration_ms as int,
                u64::MAX as int,
                2,
            );
            vstd::arithmetic::div_mod::lemma_div_pos_is_pos(duration_ms as int, clip_ms as int);
        }
        Ok(q + 1)
    }
}

/// The start offset of the 1-based clip `index`, in milliseconds.
pub fn start_offset(index: u64, clip_ms: u64) -> (r: u64)
    requires
        index >= 1,
        start_offset_spec(index as int, clip_ms as int) <= u64::MAX,
    ensures
        r == start_offset_spec(index as int, clip_ms as int),
{
    proof {
        vstd::arithmetic::mul::lemma_mul_nonnegative(index - 1, clip_ms as int);
    }
    (index - 1) * clip_ms
}

} // verus!
