//! Amount scaling: from a per-100g density and a consumed weight to the
//! absolute nutrient amounts of one consumption event.
//!
//! Each amount is `density * weight / 100`, computed exactly on the
//! density's rational representation and truncated toward zero only at
//! the end. An unknown density field stays unknown in the amount — the
//! opposite policy from the density calculation, so that missing data is
//! visible to the caller instead of being reported as zero. A zero or
//! negative consumed weight is rejected before any arithmetic runs.

use vstd::prelude::*;

use crate::errors::AggregationError;
use crate::profile::{
    density_field_ok, ComputedAmount, NutrientDensity, Rational, MAX_DENSITY_NUM, MAX_GRAMS,
};

verus! {

/// Clamps an unbounded amount to the largest representable value, the
/// behaviour of the legacy cast to a 64-bit integer.
pub open spec fn sat_to_i64(x: int) -> int {
    if x > i64::MAX {
        i64::MAX as int
    } else {
        x
    }
}

/// The whole-unit amount one density field yields for a consumed weight:
/// `num/den` per 100 grams, times `w` grams, truncated toward zero.
pub open spec fn scaled_value(r: Rational, w: int) -> int {
    sat_to_i64((r.num * w) / (r.den * 100))
}

/// One amount field: an unknown density field propagates to an unknown
/// amount, a recorded one scales exactly.
pub open spec fn scale_field_spec(d: Option<Rational>, w: int) -> Option<i64> {
    match d {
        Option::None => None,
        Option::Some(r) => Some(scaled_value(r, w) as i64),
    }
}

/// The full result of scaling: a zero or negative consumed weight fails
/// with `InvalidWeight`, any other weight yields the four field amounts.
pub open spec fn scale_spec(d: NutrientDensity, w: i64) -> Result<
    ComputedAmount,
    AggregationError,
> {
    if w <= 0 {
        Err(AggregationError::InvalidWeight(w))
    } else {
        Ok(
            ComputedAmount {
                kcal: scale_field_spec(d.kcal, w as int),
                protein: scale_field_spec(d.protein, w as int),
                fat: scale_field_spec(d.fat, w as int),
                carbohydrate: scale_field_spec(d.carbohydrate, w as int),
            },
        )
    }
}

/// Scales one density field by a positive consumed weight.
fn scale_field(d: &Option<Rational>, w: i64) -> (r: Option<i64>)
    requires
        density_field_ok(*d),
        0 < w <= MAX_GRAMS,
    ensures
        r == scale_field_spec(*d, w as int),
{
    match d {
        None => None,
        Some(rat) => {
            proof {
                assert(rat.num * w <= MAX_DENSITY_NUM * MAX_GRAMS) by (nonlinear_arith)
                    requires
                        0 <= rat.num <= MAX_DENSITY_NUM,
                        0 < w <= MAX_GRAMS,
                ;
                assert(0 <= rat.num * w) by (nonlinear_arith)
                    requires
                        0 <= rat.num,
                        0 < w,
                ;
            }
            let prod: u128 = rat.num * (w as u128);
            let divisor: u128 = (rat.den as u128) * 100;
            let q: u128 = prod / divisor;
            if q > i64::MAX as u128 {
                Some(i64::MAX)
            } else {
                Some(q as i64)
            }
        },
    }
}

/// Produces the absolute nutrient amounts for consuming `consumed_weight`
/// grams of something with the given per-100g density. Fails with
/// `InvalidWeight` exactly when the weight is zero or negative; otherwise
/// each recorded density field is scaled exactly and truncated, and each
/// unknown field stays unknown, as `scale_spec` states.
pub fn scale(density: &NutrientDensity, consumed_weight: i64) -> (r: Result<
    ComputedAmount,
    AggregationError,
>)
    requires
        density.wf(),
        consumed_weight <= MAX_GRAMS,
    ensures
        r == scale_spec(*density, consumed_weight),
{
    if consumed_weight <= 0 {
        return Err(AggregationError::InvalidWeight(consumed_weight));
    }
    Ok(
        ComputedAmount {
            kcal: scale_field(&density.kcal, consumed_weight),
            protein: scale_field(&density.protein, consumed_weight),
            fat: scale_field(&density.fat, consumed_weight),
            carbohydrate: scale_field(&density.carbohydrate, consumed_weight),
        },
    )
}

/// An unknown density field always scales to an unknown amount, whatever
/// the consumed weight: absence propagates, it is never defaulted to zero.
pub proof fn lemma_scale_preserves_unknown(w: int)
    ensures
        scale_field_spec(None, w) == Option::<i64>::None,
{
}

/// The scaled amount is the floor of the exact product `density * w / 100`:
/// `a` satisfies `den * 100 * a <= num * w < den * 100 * (a + 1)`, so the
/// division truncates and never rounds up. Stated for every amount small
/// enough to be representable.
pub proof fn lemma_scale_truncates(r: Rational, w: int)
    requires
        r.wf(),
        0 < w,
        (r.num * w) / (r.den * 100) <= i64::MAX,
    ensures
        (r.den * 100) * scaled_value(r, w) <= r.num * w,
        r.num * w < (r.den * 100) * (scaled_value(r, w) + 1),
{
    let x = r.num * w;
    let d = r.den * 100;
    assert(0 <= r.num * w) by (nonlinear_arith)
        requires
            0 <= r.num,
            0 < w,
    ;
    assert(0 <= x);
    assert(0 < d);
    vstd::arithmetic::div_mod::lemma_remainder(x, d);
    assert(0 <= x - (x / d * d) < d);
    assert(scaled_value(r, w) == x / d);
    assert(d * (x / d) == x / d * d) by (nonlinear_arith);
    assert(d * (x / d + 1) == x / d * d + d) by (nonlinear_arith);
}

} // verus!
