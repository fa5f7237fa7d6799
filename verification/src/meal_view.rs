//! Response records of the meal views: a resolved component with its
//! nutrient amounts, and the per-meal groupings the endpoints return.

use vstd::prelude::*;

use crate::models::Meal;
use crate::profile::ComputedAmount;

verus! {

/// One resolved component of a meal as shown to a caller: what was
/// consumed, how much of it, and the amounts the engine derived. An
/// unknown nutrient stays `None` here — it is never rendered as zero.
#[derive(Debug, PartialEq)]
pub struct MealComponent {
    pub weight: i64,
    pub name: Option<String>,
    pub id: i64,
    pub kcal: Option<i64>,
    pub proteins: Option<i64>,
    pub fat: Option<i64>,
    pub carbohydrates: Option<i64>,
}

/// Builds the caller-facing view of one resolved component from its
/// identity and the engine's computed amounts, field for field.
pub fn meal_component_view(id: i64, name: Option<String>, weight: i64, amount: &ComputedAmount)
    -> (r: MealComponent)
    ensures
        r.id == id,
        r.name == name,
        r.weight == weight,
        r.kcal == amount.kcal,
        r.proteins == amount.protein,
        r.fat == amount.fat,
        r.carbohydrates == amount.carbohydrate,
{
    MealComponent {
        weight,
        name,
        id,
        kcal: amount.kcal,
        proteins: amount.protein,
        fat: amount.fat,
        carbohydrates: amount.carbohydrate,
    }
}

/// A full meal view: the meal and its resolved components, dishes and
/// direct ingredients apart.
#[derive(Debug)]
pub struct GetMealResponse {
    pub meal: Meal,
    pub dishes: Vec<MealComponent>,
    pub ingredients: Vec<MealComponent>,
}

/// The time-window filter of a range summary request.
#[derive(Clone, Copy, Debug, PartialEq, Eq, Structural)]
pub struct EatenSince {
    pub eaten_since: i64,
}

} // verus!
