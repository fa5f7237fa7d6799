//! Nutrient aggregation engine of a food-tracking backend.
//!
//! The engine turns raw per-100g nutrient profiles of ingredients into the
//! absolute energy and macronutrient amounts contributed by a dish or a
//! meal: a weighted-density calculation over a dish's ingredients, an exact
//! scaler from density and consumed weight to whole-unit amounts, a
//! resolver that routes a meal component (dish or ingredient consumption)
//! through both, and a range aggregator that summarises many meals at
//! once. The surrounding service — transport, persistence, external
//! product lookup — supplies and consumes the plain data records also
//! defined here.

pub mod app_error;
pub mod density;
pub mod dish_api;
pub mod errors;
pub mod food_facts;
pub mod grouping;
pub mod ids;
pub mod ingredient_api;
pub mod meal_api;
pub mod meal_order;
pub mod meal_view;
pub mod models;
pub mod profile;
pub mod resolve;
pub mod scale;
pub mod summary;

use vstd::prelude::*;

verus! {

/// An id addressed by a generic request path.
#[derive(Clone, Copy, Debug, PartialEq, Eq, Structural)]
pub struct PathId {
    pub id: i64,
}

/// The required ids that do not occur in `list`, in their required order,
/// duplicates kept.
pub open spec fn missing_items_spec(list: Seq<i64>, required: Seq<i64>) -> Seq<i64>
    decreases required.len(),
{
    if required.len() == 0 {
        Seq::empty()
    } else {
        let rest = missing_items_spec(list, required.drop_last());
        if list.contains(required.last()) {
            rest
        } else {
            rest.push(required.last())
        }
    }
}

/// Whether a list of ids contains the given id.
fn contains_id(list: &Vec<i64>, x: i64) -> (b: bool)
    ensures
        b == list@.contains(x),
{
    let n = list.len();
    for i in 0..n
        invariant
            n == list@.len(),
            forall|j: int| 0 <= j < i ==> list@[j] != x,
    {
        if list[i] == x {
            return true;
        }
    }
    false
}

/// Returns the required items that the given list lacks: each required id
/// not present in `list`, in required order, duplicates kept. An empty
/// result means every required item was found.
pub fn get_missing_items(list: Vec<i64>, required_items: Vec<i64>) -> (r: Vec<i64>)
    ensures
        r@ == missing_items_spec(list@, required_items@),
{
    let n = required_items.len();
    let mut unknown_items: Vec<i64> = Vec::new();
    for i in 0..n
        invariant
            n == required_items@.len(),
            unknown_items@ == missing_items_spec(list@, required_items@.take(i as int)),
    {
        proof {
            assert(required_items@.take(i + 1).drop_last() =~= required_items@.take(i as int));
            assert(required_items@.take(i + 1).last() == required_items@[i as int]);
        }
        let item = required_items[i];
        if !contains_id(&list, item) {
            unknown_items.push(item);
        }
    }
    proof {
        assert(required_items@.take(n as int) =~= required_items@);
    }
    unknown_items
}

} // verus!
