//! Request and response records of the meal endpoints, and the
//! classification of raw component records.

use vstd::prelude::*;

use crate::models::{Meal, MealDish, NewMeal};

verus! {

/// One dish named in a meal creation request.
#[derive(Clone, Copy, Debug, PartialEq, Eq, Structural)]
pub struct PostMealDish {
    pub weight: i64,
    pub dish_id: i64,
}

/// A meal creation request.
#[derive(Debug)]
pub struct PostMealBody {
    pub eat_date: Option<i64>,
    pub duration: Option<i64>,
    pub description: Option<String>,
    pub dishes: Vec<PostMealDish>,
}

impl From<PostMealBody> for NewMeal {
    /// Keeps the meal's own fields of a creation request, dropping the
    /// dish list.
    fn from(val: PostMealBody) -> (r: NewMeal) {
        NewMeal { eat_date: val.eat_date, duration: val.duration, description: val.description }
    }
}

impl vstd::std_specs::convert::FromSpecImpl<PostMealBody> for NewMeal {
    open spec fn obeys_from_spec() -> bool {
        true
    }

    open spec fn from_spec(v: PostMealBody) -> NewMeal {
        NewMeal { eat_date: v.eat_date, duration: v.duration, description: v.description }
    }
}

/// The stored meal and its dish links after a creation.
#[derive(Debug)]
pub struct PostMealResult {
    pub meal: Meal,
    pub meal_dishes: Vec<MealDish>,
}

/// One raw component of a meal edit request: a weight and two optional
/// references, of which exactly one must be present. The classification
/// into a proper component is done by
/// `crate::resolve::MealComponent::from_parts`.
#[derive(Clone, Copy, Debug, PartialEq, Eq, Structural)]
pub struct PostMealComponent {
    pub weight: i64,
    pub dish_id: Option<i64>,
    pub ingredient_id: Option<i64>,
}

/// An eat-date update request.
#[derive(Clone, Copy, Debug, PartialEq, Eq, Structural)]
pub struct PostEatDateBody {
    pub eat_date: i64,
}

/// The meal after an eat-date update.
#[derive(Debug)]
pub struct PostEatDateResult {
    pub meal: Meal,
}

/// A dish added to a meal.
#[derive(Clone, Copy, Debug, PartialEq, Eq, Structural)]
pub struct PostDishBody {
    pub weight: i64,
    pub dish_id: i64,
}

/// The stored meal-dish link after an addition.
#[derive(Clone, Copy, Debug, PartialEq, Eq, Structural)]
pub struct PostDishResult {
    pub weight: i64,
    pub meal_id: i64,
    pub dish_id: i64,
    pub creation_date: i64,
}

/// The kind of thing a meal component references.
#[derive(Clone, Copy, Debug, PartialEq, Eq, Structural)]
pub enum ComponentType {
    Dish,
    Ingredient,
}

impl ComponentType {
    /// The kind's name, as persisted and as shown to callers.
    pub fn to_string(self) -> (r: &'static str)
        ensures
            self == ComponentType::Dish ==> r@ == "Dish"@,
            self == ComponentType::Ingredient ==> r@ == "Ingredient"@,
    {
        match self {
            ComponentType::Ingredient => "Ingredient",
            ComponentType::Dish => "Dish",
        }
    }
}

/// A component added to a meal: the referenced id, its kind, and the
/// consumed weight.
#[derive(Clone, Copy, Debug, PartialEq, Eq, Structural)]
pub struct PostComponentBody {
    pub weight: i64,
    pub component_id: i64,
    pub component_type: ComponentType,
}

/// The stored component link after an addition.
#[derive(Clone, Copy, Debug, PartialEq, Eq, Structural)]
pub struct PostComponentResult {
    pub weight: i64,
    pub meal_id: i64,
    pub component_id: i64,
    pub creation_date: i64,
}

/// One entry of the component listing: an ingredient or a dish, with the
/// kind spelled out.
#[derive(Debug, PartialEq)]
pub struct MealComponent {
    pub id: i64,
    pub name: Option<String>,
    pub component_type: String,
}

/// The component listing: every ingredient and every dish.
#[derive(Debug)]
pub struct GetComponentResult {
    pub components: Vec<MealComponent>,
}

} // verus!
