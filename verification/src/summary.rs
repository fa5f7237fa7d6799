//! Range summary aggregation: the same resolution pipeline batched over
//! every meal in a time window.
//!
//! Each input meal yields exactly one summary holding the resolved
//! dish-level and ingredient-level amounts of its components, in their
//! original order, computed by the very same density calculator and
//! scaler that serve single-meal requests. The batch fails fast: the
//! first unresolved reference aborts the whole aggregation and no partial
//! result is returned.

use vstd::prelude::*;

use crate::density::{
    density_spec, effective_total, items_total, lemma_items_total_bounds, nutrient_sums,
    sum_item_weights, weighted_sum, wf_items, DishComposition, WeightedItem,
};
use crate::errors::AggregationError;
use crate::profile::{
    ComputedAmount, NutrientDensity, Nutrient, Rational, MAX_GRAMS, MAX_ITEMS, MAX_PER_100G,
};
use crate::resolve::{
    resolve, resolve_spec, wf_dish_catalog, wf_ingredient_catalog, DishRecord, IngredientRecord,
    MealComponent,
};

verus! {

/// One meal of the requested range, with the consumption events it
/// contains.
#[derive(Debug)]
pub struct MealWithComponents {
    pub meal_id: i64,
    pub components: Vec<MealComponent>,
}

/// Every component of a component list is well-formed.
pub open spec fn wf_components(components: Seq<MealComponent>) -> bool {
    forall|i: int| 0 <= i < components.len() ==> #[trigger] components[i].wf()
}

impl MealWithComponents {
    pub open spec fn wf(self) -> bool {
        wf_components(self.components@)
    }
}

/// Every meal of a range is well-formed.
pub open spec fn wf_meals(meals: Seq<MealWithComponents>) -> bool {
    forall|i: int| 0 <= i < meals.len() ==> #[trigger] meals[i].wf()
}

/// The resolved amounts of one meal: the dish consumptions and the
/// ingredient consumptions, each in the order the meal listed them.
#[derive(Debug)]
pub struct MealSummary {
    pub meal_id: i64,
    pub dish_amounts: Vec<ComputedAmount>,
    pub ingredient_amounts: Vec<ComputedAmount>,
}

/// What resolving a meal's component list yields: the sequence of dish
/// amounts and the sequence of ingredient amounts, or the error of the
/// first component that fails to resolve.
pub open spec fn resolve_components_spec(
    components: Seq<MealComponent>,
    ingredients: Seq<IngredientRecord>,
    dishes: Seq<DishRecord>,
) -> Result<(Seq<ComputedAmount>, Seq<ComputedAmount>), AggregationError>
    decreases components.len(),
{
    if components.len() == 0 {
        Ok((Seq::empty(), Seq::empty()))
    } else {
        match resolve_components_spec(components.drop_last(), ingredients, dishes) {
            Err(e) => Err(e),
            Ok(acc) => match resolve_spec(components.last(), ingredients, dishes) {
                Err(e) => Err(e),
                Ok(a) => if components.last() matches MealComponent::DishConsumption { .. } {
                    Ok((acc.0.push(a), acc.1))
                } else {
                    Ok((acc.0, acc.1.push(a)))
                },
            },
        }
    }
}

/// The error of the first meal (in range order) whose components fail to
/// resolve, if any.
pub open spec fn first_failure(
    meals: Seq<MealWithComponents>,
    ingredients: Seq<IngredientRecord>,
    dishes: Seq<DishRecord>,
) -> Option<AggregationError>
    decreases meals.len(),
{
    if meals.len() == 0 {
        None
    } else {
        match first_failure(meals.drop_last(), ingredients, dishes) {
            Option::Some(e) => Some(e),
            Option::None => match resolve_components_spec(
                meals.last().components@,
                ingredients,
                dishes,
            ) {
                Err(e) => Some(e),
                Ok(_) => None,
            },
        }
    }
}

/// A summary matches a meal when it carries the meal's id and exactly the
/// resolved amounts of the meal's components.
pub open spec fn summary_matches(
    s: MealSummary,
    m: MealWithComponents,
    ingredients: Seq<IngredientRecord>,
    dishes: Seq<DishRecord>,
) -> bool {
    &&& s.meal_id == m.meal_id
    &&& resolve_components_spec(m.components@, ingredients, dishes) == Result::<
        (Seq<ComputedAmount>, Seq<ComputedAmount>),
        AggregationError,
    >::Ok((s.dish_amounts@, s.ingredient_amounts@))
}

/// An error on a prefix of a component list persists for the whole list.
proof fn lemma_components_error_persists(
    components: Seq<MealComponent>,
    ingredients: Seq<IngredientRecord>,
    dishes: Seq<DishRecord>,
    k: int,
    e: AggregationError,
)
    requires
        0 <= k <= components.len(),
        resolve_components_spec(components.take(k), ingredients, dishes) == Result::<
            (Seq<ComputedAmount>, Seq<ComputedAmount>),
            AggregationError,
        >::Err(e),
    ensures
        resolve_components_spec(components, ingredients, dishes) == Result::<
            (Seq<ComputedAmount>, Seq<ComputedAmount>),
            AggregationError,
        >::Err(e),
    decreases components.len(),
{
    if k == components.len() {
        assert(components.take(k) =~= components);
    } else {
        assert(components.len() > 0);
        assert(components.drop_last().take(k) =~= components.take(k));
        lemma_components_error_persists(components.drop_last(), ingredients, dishes, k, e);
    }
}

/// A failure on a prefix of a meal range persists for the whole range.
proof fn lemma_first_failure_persists(
    meals: Seq<MealWithComponents>,
    ingredients: Seq<IngredientRecord>,
    dishes: Seq<DishRecord>,
    k: int,
    e: AggregationError,
)
    requires
        0 <= k <= meals.len(),
        first_failure(meals.take(k), ingredients, dishes) == Option::<AggregationError>::Some(e),
    ensures
        first_failure(meals, ingredients, dishes) == Option::<AggregationError>::Some(e),
    decreases meals.len(),
{
    if k == meals.len() {
        assert(meals.take(k) =~= meals);
    } else {
        assert(meals.len() > 0);
        assert(meals.drop_last().take(k) =~= meals.take(k));
        lemma_first_failure_persists(meals.drop_last(), ingredients, dishes, k, e);
    }
}

/// Resolves every component of one meal, partitioning the amounts by
/// consumption kind and keeping the meal's order within each kind. Fails
/// with the first component's error, resolving nothing further.
pub fn resolve_meal_components(
    components: &Vec<MealComponent>,
    ingredients: &Vec<IngredientRecord>,
    dishes: &Vec<DishRecord>,
) -> (r: Result<(Vec<ComputedAmount>, Vec<ComputedAmount>), AggregationError>)
    requires
        wf_components(components@),
        wf_ingredient_catalog(ingredients@),
        wf_dish_catalog(dishes@),
    ensures
        match r {
            Ok(p) => resolve_components_spec(components@, ingredients@, dishes@) == Result::<
                (Seq<ComputedAmount>, Seq<ComputedAmount>),
                AggregationError,
            >::Ok((p.0@, p.1@)),
            Err(e) => resolve_components_spec(components@, ingredients@, dishes@) == Result::<
                (Seq<ComputedAmount>, Seq<ComputedAmount>),
                AggregationError,
            >::Err(e),
        },
{
    let n = components.len();
    let mut dish_amounts: Vec<ComputedAmount> = Vec::new();
    let mut ingredient_amounts: Vec<ComputedAmount> = Vec::new();
    for i in 0..n
        invariant
            n == components@.len(),
            wf_components(components@),
            wf_ingredient_catalog(ingredients@),
            wf_dish_catalog(dishes@),
            resolve_components_spec(components@.take(i as int), ingredients@, dishes@) == Result::<
                (Seq<ComputedAmount>, Seq<ComputedAmount>),
                AggregationError,
            >::Ok((dish_amounts@, ingredient_amounts@)),
    {
        assert(components@[i as int].wf());
        proof {
            assert(components@.take(i + 1).drop_last() =~= components@.take(i as int));
            assert(components@.take(i + 1).last() == components@[i as int]);
        }
        let c = &components[i];
        match resolve(c, ingredients, dishes) {
            Err(e) => {
                proof {
                    lemma_components_error_persists(
                        components@,
                        ingredients@,
                        dishes@,
                        i + 1,
                        e,
                    );
                }
                return Err(e);
            },
            Ok(a) => {
                match c {
                    MealComponent::DishConsumption { .. } => dish_amounts.push(a),
                    MealComponent::IngredientConsumption { .. } => ingredient_amounts.push(a),
                }
            },
        }
    }
    proof {
        assert(components@.take(n as int) =~= components@);
    }
    Ok((dish_amounts, ingredient_amounts))
}

/// Summarises a whole range of meals: one summary per input meal, in
/// input order, each holding the resolved dish-level and ingredient-level
/// amounts of that meal. The computation fails fast with the error of the
/// first meal that cannot be resolved, and returns no partial result.
pub fn summarize(
    meals: &Vec<MealWithComponents>,
    ingredients: &Vec<IngredientRecord>,
    dishes: &Vec<DishRecord>,
) -> (r: Result<Vec<MealSummary>, AggregationError>)
    requires
        wf_meals(meals@),
        wf_ingredient_catalog(ingredients@),
        wf_dish_catalog(dishes@),
    ensures
        r is Ok <==> first_failure(meals@, ingredients@, dishes@) is None,
        r matches Err(e) ==> first_failure(meals@, ingredients@, dishes@) == Some(e),
        r matches Ok(s) ==> s@.len() == meals@.len() && (forall|i: int|
            0 <= i < meals@.len() ==> summary_matches(
                #[trigger] s@[i],
                meals@[i],
                ingredients@,
                dishes@,
            )),
{
    let n = meals.len();
    let mut summaries: Vec<MealSummary> = Vec::new();
    for i in 0..n
        invariant
            n == meals@.len(),
            wf_meals(meals@),
            wf_ingredient_catalog(ingredients@),
            wf_dish_catalog(dishes@),
            summaries@.len() == i,
            first_failure(meals@.take(i as int), ingredients@, dishes@) is None,
            forall|j: int|
                0 <= j < i ==> summary_matches(
                    #[trigger] summaries@[j],
                    meals@[j],
                    ingredients@,
                    dishes@,
                ),
    {
        assert(meals@[i as int].wf());
        proof {
            assert(meals@.take(i + 1).drop_last() =~= meals@.take(i as int));
            assert(meals@.take(i + 1).last() == meals@[i as int]);
        }
        let m = &meals[i];
        match resolve_meal_components(&m.components, ingredients, dishes) {
            Err(e) => {
                proof {
                    lemma_first_failure_persists(meals@, ingredients@, dishes@, i + 1, e);
                }
                return Err(e);
            },
            Ok((dish_amounts, ingredient_amounts)) => {
                summaries.push(
                    MealSummary { meal_id: m.meal_id, dish_amounts, ingredient_amounts },
                );
            },
        }
    }
    proof {
        assert(meals@.take(n as int) =~= meals@);
    }
    Ok(summaries)
}

/// Every composition of a range is well-formed.
pub open spec fn wf_compositions(dishes: Seq<DishComposition>) -> bool {
    forall|i: int| 0 <= i < dishes.len() ==> (#[trigger] dishes[i]).wf()
}

/// All items of a range of dishes, dish by dish, in order.
pub open spec fn all_items(dishes: Seq<DishComposition>) -> Seq<WeightedItem>
    decreases dishes.len(),
{
    if dishes.len() == 0 {
        Seq::empty()
    } else {
        all_items(dishes.drop_last()) + dishes.last().items@
    }
}

/// The total prepared weight of a range: the sum of every dish's
/// effective total (its declared total when positive, else its summed
/// item weights).
pub open spec fn range_total(dishes: Seq<DishComposition>) -> int
    decreases dishes.len(),
{
    if dishes.len() == 0 {
        0
    } else {
        range_total(dishes.drop_last()) + effective_total(
            dishes.last().items@,
            dishes.last().declared_total_weight,
        )
    }
}

/// The number of items across a range of dishes.
pub open spec fn range_item_count(dishes: Seq<DishComposition>) -> int
    decreases dishes.len(),
{
    if dishes.len() == 0 {
        0
    } else {
        range_item_count(dishes.drop_last()) + dishes.last().items@.len()
    }
}

/// One field of the meal-range density: the same weighted average as the
/// dish-level density, over all dishes' items, normalised by the range's
/// total prepared weight.
pub open spec fn range_density_field_spec(dishes: Seq<DishComposition>, n: Nutrient) -> Option<
    Rational,
> {
    if all_items(dishes).len() == 0 || range_total(dishes) <= 0 {
        None
    } else {
        Some(
            Rational {
                num: weighted_sum(all_items(dishes), n) as u128,
                den: range_total(dishes) as u64,
            },
        )
    }
}

/// The meal-range density, field by field.
pub open spec fn range_density_spec(dishes: Seq<DishComposition>) -> NutrientDensity {
    NutrientDensity {
        kcal: range_density_field_spec(dishes, Nutrient::Kcal),
        protein: range_density_field_spec(dishes, Nutrient::Protein),
        fat: range_density_field_spec(dishes, Nutrient::Fat),
        carbohydrate: range_density_field_spec(dishes, Nutrient::Carbohydrate),
    }
}

/// For a range of one dish, the meal-range density is exactly that
/// dish's own density: the two aggregation levels share one weighted
/// average.
pub proof fn lemma_range_of_single_dish(c: DishComposition)
    ensures
        range_density_spec(seq![c]) == density_spec(c.items@, c.declared_total_weight),
{
    let s = seq![c];
    assert(s.drop_last() =~= Seq::<DishComposition>::empty());
    assert(s.last() == c);
    assert(all_items(s.drop_last()) =~= Seq::<WeightedItem>::empty());
    assert(all_items(s) =~= c.items@);
    assert(range_total(s.drop_last()) == 0);
    assert(range_total(s) == effective_total(c.items@, c.declared_total_weight));
}

/// Computes the meal-range density of a set of dish compositions: the
/// same weighted-average calculation as the per-dish density, applied to
/// every item of every dish, with the sum of the dishes' effective
/// totals as the denominator. A range with no items, or a zero total,
/// has an all-unknown density.
pub fn meal_range_density(dishes: &Vec<DishComposition>) -> (d: NutrientDensity)
    requires
        wf_compositions(dishes@),
        range_item_count(dishes@) + dishes@.len() <= MAX_ITEMS,
    ensures
        d == range_density_spec(dishes@),
        d.wf(),
{
    let n = dishes.len();
    let mut combined: Vec<WeightedItem> = Vec::new();
    let mut total: i64 = 0;
    proof {
        assert(dishes@.take(0) =~= Seq::<DishComposition>::empty());
        assert(combined@ =~= all_items(dishes@.take(0)));
    }
    for di in 0..n
        invariant
            n == dishes@.len(),
            wf_compositions(dishes@),
            range_item_count(dishes@) + dishes@.len() <= MAX_ITEMS,
            combined@ == all_items(dishes@.take(di as int)),
            combined@.len() == range_item_count(dishes@.take(di as int)),
            wf_items(combined@),
            total == range_total(dishes@.take(di as int)),
            0 <= total,
            total <= (range_item_count(dishes@.take(di as int)) + di) * MAX_GRAMS,
    {
        assert(dishes@[di as int].wf());
        proof {
            assert(dishes@.take(di + 1).drop_last() =~= dishes@.take(di as int));
            assert(dishes@.take(di + 1).last() == dishes@[di as int]);
            lemma_range_count_prefix(dishes@, di as int);
        }
        let dish = &dishes[di];
        let items_len = dish.items.len();
        let ghost combined_before = combined@;
        for j in 0..items_len
            invariant
                items_len == dish.items@.len(),
                wf_items(dish.items@),
                combined@ == combined_before + dish.items@.take(j as int),
                wf_items(combined@),
        {
            assert(dish.items@[j as int].wf());
            proof {
                assert(combined_before + dish.items@.take(j + 1) =~= (combined_before
                    + dish.items@.take(j as int)).push(dish.items@[j as int]));
            }
            combined.push(dish.items[j]);
        }
        proof {
            assert(dish.items@.take(items_len as int) =~= dish.items@);
            assert(combined@ =~= all_items(dishes@.take(di + 1)));
        }
        let eff: i64 = match dish.declared_total_weight {
            Some(t) => if t > 0 {
                t
            } else {
                sum_item_weights(&dish.items)
            },
            None => sum_item_weights(&dish.items),
        };
        proof {
            assert(eff == effective_total(dish.items@, dish.declared_total_weight));
            lemma_items_total_bounds(dish.items@);
            assert(eff <= (dish.items@.len() + 1) * MAX_GRAMS) by (nonlinear_arith)
                requires
                    eff <= MAX_GRAMS || eff <= dish.items@.len() * MAX_GRAMS,
                    0 <= dish.items@.len(),
            ;
            assert(0 <= eff) by {
                if eff != items_total(dish.items@) {
                    assert(eff > 0);
                }
            }
            assert((range_item_count(dishes@.take(di as int)) + di) * MAX_GRAMS + (
            dish.items@.len() + 1) * MAX_GRAMS == (range_item_count(dishes@.take(di + 1)) + (di
                + 1)) * MAX_GRAMS) by (nonlinear_arith)
                requires
                    range_item_count(dishes@.take(di + 1)) == range_item_count(
                        dishes@.take(di as int),
                    ) + dish.items@.len(),
            ;
            lemma_range_count_prefix(dishes@, di + 1);
            assert((range_item_count(dishes@.take(di + 1)) + (di + 1)) * MAX_GRAMS <= MAX_ITEMS
                * MAX_GRAMS) by (nonlinear_arith)
                requires
                    range_item_count(dishes@.take(di + 1)) + (di + 1) <= MAX_ITEMS,
            ;
        }
        total = total + eff;
    }
    proof {
        assert(dishes@.take(n as int) =~= dishes@);
    }
    if combined.len() == 0 || total <= 0 {
        return NutrientDensity { kcal: None, protein: None, fat: None, carbohydrate: None };
    }
    proof {
        assert(combined@.len() <= MAX_ITEMS);
        assert((range_item_count(dishes@) + dishes@.len()) * MAX_GRAMS <= MAX_ITEMS * MAX_GRAMS)
            by (nonlinear_arith)
            requires
                range_item_count(dishes@) + dishes@.len() <= MAX_ITEMS,
        ;
    }
    let sums = nutrient_sums(&combined);
    proof {
        assert(combined@.len() * (MAX_PER_100G * MAX_GRAMS) <= MAX_ITEMS * (MAX_PER_100G
            * MAX_GRAMS)) by (nonlinear_arith)
            requires
                combined@.len() <= MAX_ITEMS,
        ;
    }
    let den: u64 = total as u64;
    NutrientDensity {
        kcal: Some(Rational { num: sums.0, den }),
        protein: Some(Rational { num: sums.1, den }),
        fat: Some(Rational { num: sums.2, den }),
        carbohydrate: Some(Rational { num: sums.3, den }),
    }
}

/// A prefix of a range holds no more items than the whole range.
proof fn lemma_range_count_prefix(dishes: Seq<DishComposition>, k: int)
    requires
        0 <= k <= dishes.len(),
    ensures
        range_item_count(dishes.take(k)) <= range_item_count(dishes),
        0 <= range_item_count(dishes.take(k)),
    decreases dishes.len() - k,
{
    lemma_range_count_nonneg(dishes.take(k));
    if k == dishes.len() {
        assert(dishes.take(k) =~= dishes);
        lemma_range_count_nonneg(dishes);
    } else {
        lemma_range_count_prefix(dishes, k + 1);
        assert(dishes.take(k + 1).drop_last() =~= dishes.take(k));
        assert(dishes.take(k + 1).last() == dishes[k]);
    }
}

/// An item count is never negative.
proof fn lemma_range_count_nonneg(dishes: Seq<DishComposition>)
    ensures
        0 <= range_item_count(dishes),
    decreases dishes.len(),
{
    if dishes.len() == 0 {
    } else {
        lemma_range_count_nonneg(dishes.drop_last());
    }
}

} // verus!
