//! Request and response records of the dish endpoints, and the dish-side
//! boundary validation.

use vstd::prelude::*;

use crate::errors::AggregationError;
use crate::models::Dish;

verus! {

/// One ingredient named in a dish creation or edit request.
#[derive(Clone, Copy, Debug, PartialEq, Eq, Structural)]
pub struct PostDishIngredient {
    pub weight: i64,
    pub ingredient_id: i64,
}

/// A dish creation or edit request.
#[derive(Debug)]
pub struct PostDish {
    pub name: String,
    pub prep_date: Option<i64>,
    pub dish_ingredients: Option<Vec<PostDishIngredient>>,
    pub total_weight: Option<i64>,
    pub is_finished: Option<bool>,
}

/// One recorded use of an ingredient inside a dish, as shown to a caller.
#[derive(Debug, PartialEq)]
pub struct AddedIngredient {
    pub addition_date: i64,
    pub weight: i64,
    pub ingredient_name: String,
    pub ingredient_id: i64,
    pub kcal_100g: Option<i64>,
}

/// One recorded use of a dish inside a meal, as shown to a caller.
#[derive(Debug, PartialEq)]
pub struct UsedAt {
    pub meal_description: Option<String>,
    pub meal_id: i64,
    pub eat_date: Option<i64>,
    pub weight: Option<i64>,
}

/// A full dish view: the dish, its added ingredients, and the meals it
/// was used at.
#[derive(Debug)]
pub struct GetDishResponse {
    pub dish: Dish,
    pub added_ingredients: Vec<AddedIngredient>,
    pub used_at: Vec<UsedAt>,
}

/// One row of a dish listing.
#[derive(Debug, PartialEq)]
pub struct ListDishResponse {
    pub id: i64,
    pub name: Option<String>,
    pub prep_date: Option<i64>,
    pub creation_date: i64,
    pub is_finished: i64,
}

/// Filter of a dish listing.
#[derive(Clone, Copy, Debug, PartialEq, Eq, Structural)]
pub struct ListDishQueryParams {
    pub is_finished: Option<bool>,
}

/// A declared-total-weight update request.
#[derive(Clone, Copy, Debug, PartialEq, Eq, Structural)]
pub struct PostTotalWeight {
    pub total_weight: i64,
}

/// The declared total weight after an update.
#[derive(Clone, Copy, Debug, PartialEq, Eq, Structural)]
pub struct TotalWeightResponse {
    pub total_weight: i64,
}

/// One warning row shown before a dish is deleted: a meal that still
/// references it.
#[derive(Debug, PartialEq)]
pub struct GetDeleteWarningResult {
    pub meal_description: Option<String>,
    pub meal_eat_date: Option<i64>,
    pub weight: i64,
}

/// An ingredient added to a dish.
#[derive(Clone, Copy, Debug, PartialEq, Eq, Structural)]
pub struct PostIngredientBody {
    pub weight: i64,
    pub ingredient_id: i64,
}

/// The stored dish-ingredient link after an addition.
#[derive(Clone, Copy, Debug, PartialEq, Eq, Structural)]
pub struct PostIngredientResult {
    pub weight: i64,
    pub ingredient_id: i64,
    pub dish_id: i64,
    pub creation_date: i64,
}

/// Validates a declared total weight before it is stored: a negative
/// total is rejected, while zero is accepted and means "no declared
/// total".
pub fn validate_total_weight(total_weight: i64) -> (r: Result<i64, AggregationError>)
    ensures
        r == if total_weight < 0 {
            Result::<i64, AggregationError>::Err(AggregationError::InvalidWeight(total_weight))
        } else {
            Result::<i64, AggregationError>::Ok(total_weight)
        },
{
    if total_weight < 0 {
        Err(AggregationError::InvalidWeight(total_weight))
    } else {
        Ok(total_weight)
    }
}

} // verus!
