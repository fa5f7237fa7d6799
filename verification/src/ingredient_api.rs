//! Request and response records of the ingredient endpoints.

use vstd::prelude::*;

use crate::models::Ingredient;

verus! {

/// An ingredient creation request.
#[derive(Debug, PartialEq)]
pub struct PostIngredientBody {
    pub name: String,
}

/// An ingredient as shown to a caller.
#[derive(Debug, PartialEq)]
pub struct IngredientResult {
    pub id: i64,
    pub name: String,
    pub creation_date: i64,
}

/// The recorded nutrient properties of an ingredient, as shown to a
/// caller. Quantities are per 100 grams.
#[derive(Debug, PartialEq)]
pub struct IngredientPropertiesResult {
    pub kcal_100g: Option<i64>,
    pub product_name: Option<String>,
    pub product_code: String,
    pub carbohydrates_100g: Option<i64>,
    pub proteins_100g: Option<i64>,
    pub fat_100g: Option<i64>,
}

/// A full ingredient view: the ingredient and its recorded properties,
/// when any were recorded.
#[derive(Debug, PartialEq)]
pub struct GetIngredientResult {
    pub ingredient: IngredientResult,
    pub ingredient_properties: Option<IngredientPropertiesResult>,
}

/// An ingredient listing.
#[derive(Debug, PartialEq)]
pub struct GetIngredientResponse {
    pub ingredients: Vec<Ingredient>,
}

/// A product-properties lookup request: the product code to look up.
#[derive(Debug, PartialEq)]
pub struct PostPropertiesBody {
    pub product_code: String,
}

/// The stored ingredient properties after a product lookup.
#[derive(Debug, PartialEq)]
pub struct PostIngredientPropertiesResult {
    pub ingredient_id: i64,
    pub product_code: String,
    pub kcal_100g: Option<i64>,
}

} // verus!
