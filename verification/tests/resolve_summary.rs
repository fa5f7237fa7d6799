use foodtracker_backend::density::{density, DishComposition, WeightedItem};
use foodtracker_backend::errors::AggregationError;
use foodtracker_backend::profile::{NutrientProfile, Rational};
use foodtracker_backend::resolve::{
    resolve, DishRecord, IngredientRecord, MealComponent,
};
use foodtracker_backend::summary::{meal_range_density, summarize, MealWithComponents};

fn kcal_profile(kcal: i64) -> NutrientProfile {
    NutrientProfile { kcal: Some(kcal), protein: None, fat: None, carbohydrate: None }
}

fn sample_ingredients() -> Vec<IngredientRecord> {
    vec![
        IngredientRecord { id: 1, profile: kcal_profile(200) },
        IngredientRecord { id: 2, profile: kcal_profile(100) },
        IngredientRecord {
            id: 3,
            profile: NutrientProfile { kcal: None, protein: Some(20), fat: None, carbohydrate: None },
        },
    ]
}

fn sample_dishes() -> Vec<DishRecord> {
    vec![
        DishRecord {
            id: 7,
            composition: DishComposition {
                declared_total_weight: None,
                items: vec![
                    WeightedItem { weight_grams: 100, profile: kcal_profile(200) },
                    WeightedItem { weight_grams: 50, profile: kcal_profile(100) },
                ],
            },
        },
        DishRecord {
            id: 8,
            composition: DishComposition {
                declared_total_weight: Some(300),
                items: vec![
                    WeightedItem { weight_grams: 100, profile: kcal_profile(200) },
                    WeightedItem { weight_grams: 50, profile: kcal_profile(100) },
                ],
            },
        },
    ]
}

#[test]
fn resolve_ingredient_consumption() {
    let c = MealComponent::ingredient(1, 50).unwrap();
    let a = resolve(&c, &sample_ingredients(), &sample_dishes()).unwrap();
    assert_eq!(a.kcal, Some(100));
    assert_eq!(a.protein, None);
}

#[test]
fn resolve_dish_consumption() {
    let c = MealComponent::dish(7, 75).unwrap();
    let a = resolve(&c, &sample_ingredients(), &sample_dishes()).unwrap();
    assert_eq!(a.kcal, Some(125));
    assert_eq!(a.protein, Some(0));
}

#[test]
fn resolve_dish_with_declared_total() {
    let c = MealComponent::dish(8, 75).unwrap();
    let a = resolve(&c, &sample_ingredients(), &sample_dishes()).unwrap();
    assert_eq!(a.kcal, Some(62));
}

#[test]
fn resolve_unknown_ingredient_fails() {
    let c = MealComponent::ingredient(99, 50).unwrap();
    assert_eq!(
        resolve(&c, &sample_ingredients(), &sample_dishes()),
        Err(AggregationError::UnknownReference(99))
    );
}

#[test]
fn resolve_unknown_dish_fails() {
    let c = MealComponent::dish(42, 50).unwrap();
    assert_eq!(
        resolve(&c, &sample_ingredients(), &sample_dishes()),
        Err(AggregationError::UnknownReference(42))
    );
}

#[test]
fn resolve_is_idempotent() {
    let ingredients = sample_ingredients();
    let dishes = sample_dishes();
    for c in [
        MealComponent::ingredient(1, 50).unwrap(),
        MealComponent::dish(7, 75).unwrap(),
        MealComponent::ingredient(99, 10).unwrap(),
    ] {
        let first = resolve(&c, &ingredients, &dishes);
        let second = resolve(&c, &ingredients, &dishes);
        assert_eq!(first, second);
    }
}

#[test]
fn component_constructors_validate_weight() {
    assert_eq!(
        MealComponent::dish(7, 0),
        Err(AggregationError::InvalidWeight(0))
    );
    assert_eq!(
        MealComponent::ingredient(1, -10),
        Err(AggregationError::InvalidWeight(-10))
    );
}

#[test]
fn from_parts_requires_exactly_one_reference() {
    assert_eq!(
        MealComponent::from_parts(50, None, None),
        Err(AggregationError::MissingComponentReference)
    );
    assert_eq!(
        MealComponent::from_parts(50, Some(7), Some(1)),
        Err(AggregationError::ConflictingComponentReference)
    );
    assert_eq!(
        MealComponent::from_parts(0, Some(7), None),
        Err(AggregationError::InvalidWeight(0))
    );
    assert_eq!(
        MealComponent::from_parts(50, Some(7), None).unwrap(),
        MealComponent::DishConsumption { dish_id: 7, weight_grams: 50 }
    );
    assert_eq!(
        MealComponent::from_parts(50, None, Some(1)).unwrap(),
        MealComponent::IngredientConsumption { ingredient_id: 1, weight_grams: 50 }
    );
}

#[test]
fn summarize_resolves_every_meal_in_order() {
    let meals = vec![
        MealWithComponents {
            meal_id: 11,
            components: vec![
                MealComponent::dish(7, 75).unwrap(),
                MealComponent::ingredient(1, 50).unwrap(),
            ],
        },
        MealWithComponents { meal_id: 12, components: vec![] },
        MealWithComponents {
            meal_id: 13,
            components: vec![MealComponent::dish(8, 75).unwrap()],
        },
    ];
    let summaries = summarize(&meals, &sample_ingredients(), &sample_dishes()).unwrap();
    assert_eq!(summaries.len(), 3);
    assert_eq!(summaries[0].meal_id, 11);
    assert_eq!(summaries[0].dish_amounts.len(), 1);
    assert_eq!(summaries[0].ingredient_amounts.len(), 1);
    assert_eq!(summaries[0].dish_amounts[0].kcal, Some(125));
    assert_eq!(summaries[0].ingredient_amounts[0].kcal, Some(100));
    assert_eq!(summaries[1].meal_id, 12);
    assert!(summaries[1].dish_amounts.is_empty());
    assert!(summaries[1].ingredient_amounts.is_empty());
    assert_eq!(summaries[2].meal_id, 13);
    assert_eq!(summaries[2].dish_amounts[0].kcal, Some(62));
}

#[test]
fn summarize_fails_fast_on_unknown_reference() {
    let meals = vec![
        MealWithComponents {
            meal_id: 11,
            components: vec![MealComponent::dish(7, 75).unwrap()],
        },
        MealWithComponents {
            meal_id: 12,
            components: vec![MealComponent::dish(42, 75).unwrap()],
        },
    ];
    assert!(matches!(
        summarize(&meals, &sample_ingredients(), &sample_dishes()),
        Err(AggregationError::UnknownReference(42))
    ));
}

#[test]
fn summarize_reports_first_failure() {
    let meals = vec![
        MealWithComponents {
            meal_id: 11,
            components: vec![
                MealComponent::ingredient(50, 10).unwrap(),
                MealComponent::ingredient(60, 10).unwrap(),
            ],
        },
    ];
    assert_eq!(
        summarize(&meals, &sample_ingredients(), &sample_dishes()).unwrap_err(),
        AggregationError::UnknownReference(50)
    );
}

#[test]
fn meal_range_density_spans_all_dishes() {
    // Dish one: 100g @ 200 + 50g @ 100, no declared total (effective 150).
    // Dish two: declared total 300 over the same items.
    // Range: weighted sum 50000 over a total prepared weight of 450.
    let dishes = vec![
        DishComposition {
            declared_total_weight: None,
            items: vec![
                WeightedItem { weight_grams: 100, profile: kcal_profile(200) },
                WeightedItem { weight_grams: 50, profile: kcal_profile(100) },
            ],
        },
        DishComposition {
            declared_total_weight: Some(300),
            items: vec![
                WeightedItem { weight_grams: 100, profile: kcal_profile(200) },
                WeightedItem { weight_grams: 50, profile: kcal_profile(100) },
            ],
        },
    ];
    let d = meal_range_density(&dishes);
    assert_eq!(d.kcal, Some(Rational { num: 50000, den: 450 }));
    assert_eq!(d.protein, Some(Rational { num: 0, den: 450 }));
}

#[test]
fn meal_range_density_of_single_dish_is_the_dish_density() {
    let items = vec![
        WeightedItem { weight_grams: 100, profile: kcal_profile(200) },
        WeightedItem { weight_grams: 50, profile: kcal_profile(100) },
    ];
    let single = meal_range_density(&vec![DishComposition {
        declared_total_weight: Some(300),
        items: items.clone(),
    }]);
    let direct = density(&items, Some(300));
    assert_eq!(single, direct);
}

#[test]
fn meal_range_density_empty_range_is_unknown() {
    let d = meal_range_density(&vec![]);
    assert_eq!(d.kcal, None);
    assert_eq!(d.protein, None);
    assert_eq!(d.fat, None);
    assert_eq!(d.carbohydrate, None);
}
