use foodtracker_backend::app_error::AppError;
use foodtracker_backend::dish_api::validate_total_weight;
use foodtracker_backend::errors::AggregationError;
use foodtracker_backend::food_facts::{
    interpret_food_facts_response, validate_product_code, PostIngredientPropertiesError,
};
use foodtracker_backend::get_missing_items;
use foodtracker_backend::meal_api::{ComponentType, PostMealBody, PostMealDish};
use foodtracker_backend::meal_view::meal_component_view;
use foodtracker_backend::models::NewMeal;
use foodtracker_backend::profile::ComputedAmount;

#[test]
fn missing_items_keeps_order_and_duplicates() {
    assert_eq!(get_missing_items(vec![1, 2, 3], vec![2, 4, 2, 5]), vec![4, 5]);
    assert_eq!(get_missing_items(vec![1, 2, 3], vec![4, 4]), vec![4, 4]);
    assert_eq!(get_missing_items(vec![], vec![9, 8]), vec![9, 8]);
    assert_eq!(get_missing_items(vec![1], vec![]), Vec::<i64>::new());
    assert_eq!(get_missing_items(vec![1, 2], vec![1, 2]), Vec::<i64>::new());
}

#[test]
fn component_type_names() {
    assert_eq!(ComponentType::Dish.to_string(), "Dish");
    assert_eq!(ComponentType::Ingredient.to_string(), "Ingredient");
}

#[test]
fn total_weight_validation() {
    assert_eq!(validate_total_weight(-1), Err(AggregationError::InvalidWeight(-1)));
    assert_eq!(validate_total_weight(0), Ok(0));
    assert_eq!(validate_total_weight(250), Ok(250));
}

#[test]
fn product_code_must_not_be_empty() {
    assert_eq!(
        validate_product_code(String::new()),
        Err(PostIngredientPropertiesError::ProductCodeIsEmpty(String::new()))
    );
    assert_eq!(validate_product_code("4006040".to_string()), Ok("4006040".to_string()));
}

#[test]
fn food_facts_response_interpretation() {
    assert_eq!(
        interpret_food_facts_response(
            "4006040".to_string(),
            false,
            "404 Not Found".to_string(),
            "missing".to_string(),
            1,
        ),
        Err(PostIngredientPropertiesError::HttpStatusNotSuccess(
            "404 Not Found".to_string(),
            "missing".to_string(),
        ))
    );
    assert_eq!(
        interpret_food_facts_response(
            "4006040".to_string(),
            true,
            "200 OK".to_string(),
            "{}".to_string(),
            0,
        ),
        Err(PostIngredientPropertiesError::ProductCodeNotFound("4006040".to_string()))
    );
    assert_eq!(
        interpret_food_facts_response(
            "4006040".to_string(),
            true,
            "200 OK".to_string(),
            "{\"status\":1}".to_string(),
            1,
        ),
        Ok("{\"status\":1}".to_string())
    );
}

#[test]
fn new_meal_from_post_body_keeps_meal_fields() {
    let body = PostMealBody {
        eat_date: Some(1700000000),
        duration: Some(30),
        description: Some("lunch".to_string()),
        dishes: vec![PostMealDish { weight: 100, dish_id: 7 }],
    };
    let new_meal = NewMeal::from(body);
    assert_eq!(new_meal.eat_date, Some(1700000000));
    assert_eq!(new_meal.duration, Some(30));
    assert_eq!(new_meal.description, Some("lunch".to_string()));
}

#[test]
fn meal_component_view_copies_amounts() {
    let amount = ComputedAmount {
        kcal: Some(125),
        protein: None,
        fat: Some(4),
        carbohydrate: Some(15),
    };
    let view = meal_component_view(7, Some("soup".to_string()), 75, &amount);
    assert_eq!(view.id, 7);
    assert_eq!(view.name, Some("soup".to_string()));
    assert_eq!(view.weight, 75);
    assert_eq!(view.kcal, Some(125));
    assert_eq!(view.proteins, None);
    assert_eq!(view.fat, Some(4));
    assert_eq!(view.carbohydrates, Some(15));
}

#[test]
fn app_error_carries_message() {
    let e = AppError::new("Could not find dish with id \"3\"".to_string());
    assert_eq!(e.0, "Could not find dish with id \"3\"");
}
