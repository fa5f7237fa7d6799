//! Weighted density calculation: from a collection of (weight, profile)
//! pairs and an optional declared total weight to an aggregate per-100g
//! density.
//!
//! The normalisation denominator — the effective total — is the declared
//! total when present and positive, otherwise the sum of the item weights.
//! A missing per-item value contributes zero to the weighted sum, so a
//! non-empty collection with a positive effective total always yields a
//! recorded density field, even when every item left that field unknown.
//! An empty collection, or a zero effective total, yields an all-unknown
//! density rather than an error.

use vstd::prelude::*;

use crate::errors::AggregationError;
use crate::profile::{
    NutrientDensity, NutrientProfile, Nutrient, Rational, MAX_GRAMS, MAX_ITEMS, MAX_PER_100G,
};

verus! {

/// One ingredient's contribution inside a dish, or one dish's contribution
/// inside a range aggregate: a strictly positive weight in grams together
/// with a per-100g profile.
#[derive(Clone, Copy, Debug, PartialEq, Eq, Structural)]
pub struct WeightedItem {
    pub weight_grams: i64,
    pub profile: NutrientProfile,
}

impl WeightedItem {
    /// The weight is strictly positive and in range, and the profile is
    /// well-formed.
    pub open spec fn wf(self) -> bool {
        &&& 0 < self.weight_grams <= MAX_GRAMS
        &&& self.profile.wf()
    }

    /// Validates a raw weight at the boundary: a zero or negative weight
    /// never reaches the calculator.
    pub fn new(weight_grams: i64, profile: NutrientProfile) -> (r: Result<
        WeightedItem,
        AggregationError,
    >)
        requires
            weight_grams <= MAX_GRAMS,
            profile.wf(),
        ensures
            r == if weight_grams <= 0 {
                Result::<WeightedItem, AggregationError>::Err(
                    AggregationError::InvalidWeight(weight_grams),
                )
            } else {
                Result::<WeightedItem, AggregationError>::Ok(
                    WeightedItem { weight_grams, profile },
                )
            },
            r matches Ok(it) ==> it.wf(),
    {
        if weight_grams <= 0 {
            Err(AggregationError::InvalidWeight(weight_grams))
        } else {
            Ok(WeightedItem { weight_grams, profile })
        }
    }
}

/// Every item of a collection is well-formed.
pub open spec fn wf_items(items: Seq<WeightedItem>) -> bool {
    forall|i: int| 0 <= i < items.len() ==> #[trigger] items[i].wf()
}

/// A dish's raw composition: its ingredient list and an optional declared
/// total prepared weight. The declared total, when present and positive,
/// overrides the sum of the item weights as the density denominator.
#[derive(Debug)]
pub struct DishComposition {
    pub declared_total_weight: Option<i64>,
    pub items: Vec<WeightedItem>,
}

/// Whether an optional declared total is within the engine's range. Any
/// sign is accepted: a zero or negative declared total is ignored by the
/// density computation rather than rejected.
pub open spec fn declared_total_ok(declared: Option<i64>) -> bool {
    match declared {
        Option::None => true,
        Option::Some(t) => t <= MAX_GRAMS,
    }
}

impl DishComposition {
    pub open spec fn wf(self) -> bool {
        &&& wf_items(self.items@)
        &&& self.items@.len() <= MAX_ITEMS
        &&& declared_total_ok(self.declared_total_weight)
    }
}

/// The value one item contributes per gram to a nutrient's weighted sum:
/// its recorded per-100g value, or zero when the value is unknown.
pub open spec fn item_value(it: WeightedItem, n: Nutrient) -> int {
    match it.profile.spec_field(n) {
        Option::None => 0,
        Option::Some(v) => v as int,
    }
}

/// The weighted nutrient sum over a collection: for each item, its
/// per-100g value (zero when unknown) times its weight in grams.
pub open spec fn weighted_sum(items: Seq<WeightedItem>, n: Nutrient) -> int
    decreases items.len(),
{
    if items.len() == 0 {
        0
    } else {
        weighted_sum(items.drop_last(), n) + item_value(items.last(), n) * items.last().weight_grams
    }
}

/// The sum of the item weights of a collection.
pub open spec fn items_total(items: Seq<WeightedItem>) -> int
    decreases items.len(),
{
    if items.len() == 0 {
        0
    } else {
        items_total(items.drop_last()) + items.last().weight_grams
    }
}

/// The denominator a density computation actually uses: the declared
/// total when present and positive, otherwise the sum of item weights.
pub open spec fn effective_total(items: Seq<WeightedItem>, declared: Option<i64>) -> int {
    match declared {
        Option::Some(t) => if t > 0 {
            t as int
        } else {
            items_total(items)
        },
        Option::None => items_total(items),
    }
}

/// One field of the aggregate density: unknown for an empty collection or
/// a non-positive effective total, otherwise the exact unreduced fraction
/// of the weighted sum over the effective total.
pub open spec fn density_field_spec(
    items: Seq<WeightedItem>,
    declared: Option<i64>,
    n: Nutrient,
) -> Option<Rational> {
    if items.len() == 0 || effective_total(items, declared) <= 0 {
        None
    } else {
        Some(
            Rational {
                num: weighted_sum(items, n) as u128,
                den: effective_total(items, declared) as u64,
            },
        )
    }
}

/// The aggregate per-100g density of a collection, field by field.
pub open spec fn density_spec(items: Seq<WeightedItem>, declared: Option<i64>) -> NutrientDensity {
    NutrientDensity {
        kcal: density_field_spec(items, declared, Nutrient::Kcal),
        protein: density_field_spec(items, declared, Nutrient::Protein),
        fat: density_field_spec(items, declared, Nutrient::Fat),
        carbohydrate: density_field_spec(items, declared, Nutrient::Carbohydrate),
    }
}

/// The weighted sum of a well-formed collection is non-negative and at
/// most `len * MAX_PER_100G * MAX_GRAMS`.
pub proof fn lemma_weighted_sum_bounds(items: Seq<WeightedItem>, n: Nutrient)
    requires
        wf_items(items),
    ensures
        0 <= weighted_sum(items, n),
        weighted_sum(items, n) <= items.len() * (MAX_PER_100G * MAX_GRAMS),
    decreases items.len(),
{
    if items.len() == 0 {
    } else {
        assert(wf_items(items.drop_last())) by {
            assert(forall|i: int|
                0 <= i < items.drop_last().len() ==> items.drop_last()[i] == items[i]);
        }
        lemma_weighted_sum_bounds(items.drop_last(), n);
        assert(items[items.len() - 1].wf());
        assert(0 <= item_value(items.last(), n) <= MAX_PER_100G);
        assert(item_value(items.last(), n) * items.last().weight_grams
            <= MAX_PER_100G * MAX_GRAMS) by (nonlinear_arith)
            requires
                0 <= item_value(items.last(), n) <= MAX_PER_100G,
                0 < items.last().weight_grams <= MAX_GRAMS,
        ;
        assert(0 <= item_value(items.last(), n) * items.last().weight_grams) by (nonlinear_arith)
            requires
                0 <= item_value(items.last(), n),
                0 < items.last().weight_grams,
        ;
        assert((items.len() - 1) * (MAX_PER_100G * MAX_GRAMS) + (MAX_PER_100G * MAX_GRAMS)
            == items.len() * (MAX_PER_100G * MAX_GRAMS)) by (nonlinear_arith);
    }
}

/// The weight sum of a well-formed collection is non-negative and at most
/// `len * MAX_GRAMS`, and positive when the collection is non-empty.
pub proof fn lemma_items_total_bounds(items: Seq<WeightedItem>)
    requires
        wf_items(items),
    ensures
        0 <= items_total(items),
        items_total(items) <= items.len() * MAX_GRAMS,
        items.len() > 0 ==> items_total(items) > 0,
    decreases items.len(),
{
    if items.len() == 0 {
    } else {
        assert(wf_items(items.drop_last())) by {
            assert(forall|i: int|
                0 <= i < items.drop_last().len() ==> items.drop_last()[i] == items[i]);
        }
        lemma_items_total_bounds(items.drop_last());
        assert(items[items.len() - 1].wf());
        assert((items.len() - 1) * MAX_GRAMS + MAX_GRAMS == items.len() * MAX_GRAMS)
            by (nonlinear_arith);
    }
}

/// For a non-empty collection with a positive effective total, every
/// density field is recorded and equals the weighted average exactly: the
/// unreduced fraction of the weighted nutrient sum (missing per-item
/// values contributing zero) over the effective total.
pub proof fn lemma_density_is_weighted_average(
    items: Seq<WeightedItem>,
    declared: Option<i64>,
    n: Nutrient,
)
    requires
        wf_items(items),
        items.len() <= MAX_ITEMS,
        declared_total_ok(declared),
        items.len() > 0,
        effective_total(items, declared) > 0,
    ensures
        density_field_spec(items, declared, n) matches Some(r) && r.num == weighted_sum(items, n)
            && r.den == effective_total(items, declared),
{
    lemma_weighted_sum_bounds(items, n);
    lemma_items_total_bounds(items);
    assert(items.len() * (MAX_PER_100G * MAX_GRAMS) <= MAX_ITEMS * (MAX_PER_100G * MAX_GRAMS))
        by (nonlinear_arith)
        requires
            items.len() <= MAX_ITEMS,
    ;
    assert(items.len() * MAX_GRAMS <= MAX_ITEMS * MAX_GRAMS) by (nonlinear_arith)
        requires
            items.len() <= MAX_ITEMS,
    ;
}

/// The density of an empty collection is all-unknown, whatever total was
/// declared: with nothing to average, the density is undefined.
pub proof fn lemma_density_of_empty(declared: Option<i64>, n: Nutrient)
    ensures
        density_field_spec(Seq::<WeightedItem>::empty(), declared, n) is None,
{
}

/// If every item of a collection leaves a nutrient unrecorded, its
/// weighted sum is zero.
pub proof fn lemma_weighted_sum_all_unknown(items: Seq<WeightedItem>, n: Nutrient)
    requires
        forall|i: int| 0 <= i < items.len() ==> #[trigger] items[i].profile.spec_field(n) is None,
    ensures
        weighted_sum(items, n) == 0,
    decreases items.len(),
{
    if items.len() == 0 {
    } else {
        assert(items[items.len() - 1].profile.spec_field(n) is None);
        assert(item_value(items.last(), n) == 0);
        assert(forall|i: int|
            0 <= i < items.drop_last().len() ==> items.drop_last()[i] == items[i]);
        lemma_weighted_sum_all_unknown(items.drop_last(), n);
    }
}

/// The zero-default policy, stated on its own: a non-empty collection
/// with a positive effective total yields a recorded density field even
/// when every item left that field unknown — the field reads as exactly
/// zero then, not as unknown.
pub proof fn lemma_density_all_unknown_is_zero(
    items: Seq<WeightedItem>,
    declared: Option<i64>,
    n: Nutrient,
)
    requires
        wf_items(items),
        items.len() <= MAX_ITEMS,
        declared_total_ok(declared),
        items.len() > 0,
        effective_total(items, declared) > 0,
        forall|i: int| 0 <= i < items.len() ==> #[trigger] items[i].profile.spec_field(n) is None,
    ensures
        density_field_spec(items, declared, n) matches Some(r) && r.num == 0,
{
    lemma_density_is_weighted_average(items, declared, n);
    lemma_weighted_sum_all_unknown(items, n);
}

/// Sums the item weights of a collection.
pub(crate) fn sum_item_weights(items: &Vec<WeightedItem>) -> (t: i64)
    requires
        wf_items(items@),
        items@.len() <= MAX_ITEMS,
    ensures
        t == items_total(items@),
        0 <= t <= items@.len() * MAX_GRAMS,
{
    let n = items.len();
    let mut t: i64 = 0;
    for i in 0..n
        invariant
            n == items@.len() <= MAX_ITEMS,
            wf_items(items@),
            t == items_total(items@.take(i as int)),
            0 <= t <= i * MAX_GRAMS,
    {
        assert(items@[i as int].wf());
        proof {
            assert(items@.take(i + 1).drop_last() =~= items@.take(i as int));
            assert(items@.take(i + 1).last() == items@[i as int]);
            assert((i + 1) * MAX_GRAMS == i * MAX_GRAMS + MAX_GRAMS) by (nonlinear_arith);
        }
        t = t + items[i].weight_grams;
    }
    proof {
        assert(items@.take(n as int) =~= items@);
    }
    t
}

/// The aggregate per-100g density of a weighted collection, with the
/// declared total (when positive) overriding the summed weights as the
/// denominator. Every output field follows `density_spec` exactly: the
/// policy that a missing per-item value contributes zero, while an empty
/// collection or zero total yields all-unknown, is part of the contract.
pub fn density(items: &Vec<WeightedItem>, declared_total: Option<i64>) -> (d: NutrientDensity)
    requires
        wf_items(items@),
        items@.len() <= MAX_ITEMS,
        declared_total_ok(declared_total),
    ensures
        d == density_spec(items@, declared_total),
        d.wf(),
{
    let n = items.len();
    if n == 0 {
        return NutrientDensity { kcal: None, protein: None, fat: None, carbohydrate: None };
    }
    let total: i64 = match declared_total {
        Some(t) => if t > 0 {
            t
        } else {
            sum_item_weights(items)
        },
        None => sum_item_weights(items),
    };
    assert(total == effective_total(items@, declared_total));
    if total <= 0 {
        return NutrientDensity { kcal: None, protein: None, fat: None, carbohydrate: None };
    }
    proof {
        lemma_items_total_bounds(items@);
    }
    let sums = nutrient_sums(items);
    proof {
        assert(items@.len() * (MAX_PER_100G * MAX_GRAMS) <= MAX_ITEMS * (MAX_PER_100G
            * MAX_GRAMS)) by (nonlinear_arith)
            requires
                items@.len() <= MAX_ITEMS,
        ;
    }
    let den: u64 = total as u64;
    NutrientDensity {
        kcal: Some(Rational { num: sums.0, den }),
        protein: Some(Rational { num: sums.1, den }),
        fat: Some(Rational { num: sums.2, den }),
        carbohydrate: Some(Rational { num: sums.3, den }),
    }
}

/// The four weighted nutrient sums of a collection, in field order:
/// kcal, protein, fat, carbohydrate. The shared summation core of the
/// dish-level and the meal-range-level density computations.
pub(crate) fn nutrient_sums(items: &Vec<WeightedItem>) -> (sums: (u128, u128, u128, u128))
    requires
        wf_items(items@),
        items@.len() <= MAX_ITEMS,
    ensures
        sums.0 == weighted_sum(items@, Nutrient::Kcal),
        sums.1 == weighted_sum(items@, Nutrient::Protein),
        sums.2 == weighted_sum(items@, Nutrient::Fat),
        sums.3 == weighted_sum(items@, Nutrient::Carbohydrate),
        sums.0 <= items@.len() * (MAX_PER_100G * MAX_GRAMS),
        sums.1 <= items@.len() * (MAX_PER_100G * MAX_GRAMS),
        sums.2 <= items@.len() * (MAX_PER_100G * MAX_GRAMS),
        sums.3 <= items@.len() * (MAX_PER_100G * MAX_GRAMS),
{
    let n = items.len();
    let mut kcal_sum: u128 = 0;
    let mut protein_sum: u128 = 0;
    let mut fat_sum: u128 = 0;
    let mut carbohydrate_sum: u128 = 0;
    for i in 0..n
        invariant
            n == items@.len() <= MAX_ITEMS,
            wf_items(items@),
            kcal_sum == weighted_sum(items@.take(i as int), Nutrient::Kcal),
            protein_sum == weighted_sum(items@.take(i as int), Nutrient::Protein),
            fat_sum == weighted_sum(items@.take(i as int), Nutrient::Fat),
            carbohydrate_sum == weighted_sum(items@.take(i as int), Nutrient::Carbohydrate),
            kcal_sum <= i * (MAX_PER_100G * MAX_GRAMS),
            protein_sum <= i * (MAX_PER_100G * MAX_GRAMS),
            fat_sum <= i * (MAX_PER_100G * MAX_GRAMS),
            carbohydrate_sum <= i * (MAX_PER_100G * MAX_GRAMS),
    {
        assert(items@[i as int].wf());
        let it = &items[i];
        let w = it.weight_grams as u128;
        let kcal_v = field_or_zero(it.profile.kcal);
        let protein_v = field_or_zero(it.profile.protein);
        let fat_v = field_or_zero(it.profile.fat);
        let carbohydrate_v = field_or_zero(it.profile.carbohydrate);
        proof {
            lemma_step_bound(kcal_v as int, w as int, i as int);
            lemma_step_bound(protein_v as int, w as int, i as int);
            lemma_step_bound(fat_v as int, w as int, i as int);
            lemma_step_bound(carbohydrate_v as int, w as int, i as int);
            assert(items@.take(i + 1).drop_last() =~= items@.take(i as int));
            assert(items@.take(i + 1).last() == items@[i as int]);
        }
        kcal_sum = kcal_sum + kcal_v * w;
        protein_sum = protein_sum + protein_v * w;
        fat_sum = fat_sum + fat_v * w;
        carbohydrate_sum = carbohydrate_sum + carbohydrate_v * w;
    }
    proof {
        assert(items@.take(n as int) =~= items@);
    }
    (kcal_sum, protein_sum, fat_sum, carbohydrate_sum)
}

/// A recorded per-100g value, or zero when the value is unknown.
fn field_or_zero(v: Option<i64>) -> (r: u128)
    requires
        crate::profile::per_100g_ok(v),
    ensures
        r == match v {
            Option::None => 0int,
            Option::Some(x) => x as int,
        },
        r <= MAX_PER_100G,
{
    match v {
        None => 0,
        Some(x) => x as u128,
    }
}

/// One accumulation step stays within the running bound.
proof fn lemma_step_bound(v: int, w: int, i: int)
    requires
        0 <= v <= MAX_PER_100G,
        0 <= w <= MAX_GRAMS,
        0 <= i,
    ensures
        0 <= v * w <= MAX_PER_100G * MAX_GRAMS,
        i * (MAX_PER_100G * MAX_GRAMS) + (MAX_PER_100G * MAX_GRAMS)
            == (i + 1) * (MAX_PER_100G * MAX_GRAMS),
{
    assert(0 <= v * w <= MAX_PER_100G * MAX_GRAMS) by (nonlinear_arith)
        requires
            0 <= v <= MAX_PER_100G,
            0 <= w <= MAX_GRAMS,
    ;
    assert(i * (MAX_PER_100G * MAX_GRAMS) + (MAX_PER_100G * MAX_GRAMS)
        == (i + 1) * (MAX_PER_100G * MAX_GRAMS)) by (nonlinear_arith);
}

} // verus!
