//! The persisted entity records of the food tracker: ingredients, dishes,
//! meals, and the join records tying them together. Dates are unix
//! timestamps; weights are grams.

use vstd::prelude::*;

verus! {

/// A raw ingredient known to the tracker.
#[derive(Debug, PartialEq)]
pub struct Ingredient {
    pub id: i64,
    pub creation_date: i64,
    pub name: String,
}

/// A prepared dish. A `total_weight` of zero means no total was declared.
#[derive(Debug, PartialEq)]
pub struct Dish {
    pub id: i64,
    pub creation_date: i64,
    pub prep_date: Option<i64>,
    pub name: Option<String>,
    pub total_weight: i64,
    pub is_finished: i64,
}

/// One ingredient added to a dish, with the added weight in grams.
#[derive(Clone, Copy, Debug, PartialEq, Eq, Structural)]
pub struct DishIngredient {
    pub creation_date: i64,
    pub dish_id: i64,
    pub ingredient_id: i64,
    pub weight: i64,
}

/// A dish about to be created.
#[derive(Debug, PartialEq)]
pub struct NewDish {
    pub name: Option<String>,
    pub prep_date: Option<i64>,
}

/// A dish-ingredient link about to be created.
#[derive(Clone, Copy, Debug, PartialEq, Eq, Structural)]
pub struct NewDishIngredient {
    pub dish_id: i64,
    pub ingredient_id: i64,
    pub weight: i64,
}

/// A meal: an eating event, possibly not yet dated.
#[derive(Debug, PartialEq)]
pub struct Meal {
    pub id: i64,
    pub creation_date: i64,
    pub eat_date: Option<i64>,
    pub duration: Option<i64>,
    pub description: Option<String>,
}

/// One dish eaten as part of a meal, with the consumed weight in grams.
#[derive(Clone, Copy, Debug, PartialEq, Eq, Structural)]
pub struct MealDish {
    pub creation_date: i64,
    pub dish_id: i64,
    pub meal_id: i64,
    pub weight: i64,
}

/// A meal about to be created.
#[derive(Debug, PartialEq)]
pub struct NewMeal {
    pub eat_date: Option<i64>,
    pub duration: Option<i64>,
    pub description: Option<String>,
}

/// A meal-dish link about to be created.
#[derive(Clone, Copy, Debug, PartialEq, Eq, Structural)]
pub struct NewMealDish {
    pub dish_id: i64,
    pub meal_id: i64,
    pub weight: i64,
}

} // verus!
