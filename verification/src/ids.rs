//! Path-parameter records: the ids a request addresses.

use vstd::prelude::*;

verus! {

/// A dish addressed by a request path.
#[derive(Clone, Copy, Debug, PartialEq, Eq, Structural)]
pub struct DishId {
    pub dish_id: i64,
}

/// A meal addressed by a request path.
#[derive(Clone, Copy, Debug, PartialEq, Eq, Structural)]
pub struct MealId {
    pub meal_id: i64,
}

/// An ingredient addressed by a request path.
#[derive(Clone, Copy, Debug, PartialEq, Eq, Structural)]
pub struct IngredientId {
    pub ingredient_id: i64,
}

} // verus!
