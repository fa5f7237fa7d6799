use foodtracker_backend::density::{density, WeightedItem};
use foodtracker_backend::errors::AggregationError;
use foodtracker_backend::profile::{profile_density, NutrientProfile, Rational};
use foodtracker_backend::scale::scale;

fn kcal_profile(kcal: i64) -> NutrientProfile {
    NutrientProfile { kcal: Some(kcal), protein: None, fat: None, carbohydrate: None }
}

fn unknown_profile() -> NutrientProfile {
    NutrientProfile { kcal: None, protein: None, fat: None, carbohydrate: None }
}

#[test]
fn scenario_two_ingredients_inferred_total() {
    // A: 100g @ 200 kcal/100g, B: 50g @ 100 kcal/100g; no declared total.
    // Effective total = 150g, weighted sum = 25000.
    let items = vec![
        WeightedItem { weight_grams: 100, profile: kcal_profile(200) },
        WeightedItem { weight_grams: 50, profile: kcal_profile(100) },
    ];
    let d = density(&items, None);
    assert_eq!(d.kcal, Some(Rational { num: 25000, den: 150 }));
    // Consuming 75g: floor(25000 * 75 / (150 * 100)) = floor(125.0) = 125.
    let a = scale(&d, 75).unwrap();
    assert_eq!(a.kcal, Some(125));
    assert_eq!(a.protein, Some(0));
    assert_eq!(a.fat, Some(0));
    assert_eq!(a.carbohydrate, Some(0));
}

#[test]
fn scenario_declared_total_overrides() {
    // Same dish with declared_total_weight = 300: density = 25000/300.
    let items = vec![
        WeightedItem { weight_grams: 100, profile: kcal_profile(200) },
        WeightedItem { weight_grams: 50, profile: kcal_profile(100) },
    ];
    let d = density(&items, Some(300));
    assert_eq!(d.kcal, Some(Rational { num: 25000, den: 300 }));
    // Consuming 75g: floor(25000 * 75 / (300 * 100)) = floor(62.5) = 62.
    let a = scale(&d, 75).unwrap();
    assert_eq!(a.kcal, Some(62));
}

#[test]
fn scenario_missing_value_contributes_zero() {
    // One ingredient without a kcal value, one with 200 kcal/100g, 50g
    // each: density kcal = (0*50 + 200*50)/100 = 100, not unknown.
    let items = vec![
        WeightedItem { weight_grams: 50, profile: unknown_profile() },
        WeightedItem { weight_grams: 50, profile: kcal_profile(200) },
    ];
    let d = density(&items, None);
    assert_eq!(d.kcal, Some(Rational { num: 10000, den: 100 }));
    let a = scale(&d, 100).unwrap();
    assert_eq!(a.kcal, Some(100));
}

#[test]
fn scenario_empty_dish_is_all_unknown() {
    // No ingredients and no declared total: density is all-unknown, and
    // scaling it yields all-unknown amounts, never an error.
    let items: Vec<WeightedItem> = vec![];
    let d = density(&items, None);
    assert_eq!(d.kcal, None);
    assert_eq!(d.protein, None);
    assert_eq!(d.fat, None);
    assert_eq!(d.carbohydrate, None);
    let a = scale(&d, 80).unwrap();
    assert_eq!(a.kcal, None);
    assert_eq!(a.protein, None);
    assert_eq!(a.fat, None);
    assert_eq!(a.carbohydrate, None);
}

#[test]
fn empty_items_ignore_declared_total() {
    let items: Vec<WeightedItem> = vec![];
    let d = density(&items, Some(300));
    assert_eq!(d.kcal, None);
    assert_eq!(d.protein, None);
    assert_eq!(d.fat, None);
    assert_eq!(d.carbohydrate, None);
}

#[test]
fn unknown_density_and_empty_dish_density_agree_when_scaled() {
    // A density built from an empty item set and one read off an
    // all-unknown profile reach scale by different paths; both must
    // scale to the same all-unknown amounts.
    let from_empty = density(&vec![], None);
    let from_profile = profile_density(&unknown_profile());
    let a = scale(&from_empty, 120).unwrap();
    let b = scale(&from_profile, 120).unwrap();
    assert_eq!(a, b);
    assert_eq!(a.kcal, None);
}

#[test]
fn scaling_truncates_toward_zero() {
    // Density 999/1 per 100g, consuming 10g: 99.9 truncates to 99; a
    // rounding implementation would report 100.
    let items = vec![WeightedItem { weight_grams: 1, profile: kcal_profile(999) }];
    let d = density(&items, None);
    assert_eq!(d.kcal, Some(Rational { num: 999, den: 1 }));
    let a = scale(&d, 10).unwrap();
    assert_eq!(a.kcal, Some(99));
}

#[test]
fn scale_rejects_zero_and_negative_weight() {
    let d = profile_density(&kcal_profile(100));
    assert_eq!(scale(&d, 0), Err(AggregationError::InvalidWeight(0)));
    assert_eq!(scale(&d, -5), Err(AggregationError::InvalidWeight(-5)));
}

#[test]
fn consuming_the_whole_effective_total_scales_linearly() {
    // Consuming exactly the dish's effective total of 150g yields the
    // full weighted sum over 100: floor(25000 * 150 / 15000) = 250.
    let items = vec![
        WeightedItem { weight_grams: 100, profile: kcal_profile(200) },
        WeightedItem { weight_grams: 50, profile: kcal_profile(100) },
    ];
    let d = density(&items, None);
    let a = scale(&d, 150).unwrap();
    assert_eq!(a.kcal, Some(250));
}

#[test]
fn weighted_item_boundary_validation() {
    assert_eq!(
        WeightedItem::new(0, kcal_profile(10)),
        Err(AggregationError::InvalidWeight(0))
    );
    assert_eq!(
        WeightedItem::new(-3, kcal_profile(10)),
        Err(AggregationError::InvalidWeight(-3))
    );
    let it = WeightedItem::new(25, kcal_profile(10)).unwrap();
    assert_eq!(it.weight_grams, 25);
    assert_eq!(it.profile.kcal, Some(10));
}

#[test]
fn all_fields_scale_independently() {
    let p = NutrientProfile {
        kcal: Some(250),
        protein: None,
        fat: Some(9),
        carbohydrate: Some(30),
    };
    let d = profile_density(&p);
    let a = scale(&d, 50).unwrap();
    assert_eq!(a.kcal, Some(125));
    assert_eq!(a.protein, None);
    assert_eq!(a.fat, Some(4));
    assert_eq!(a.carbohydrate, Some(15));
}
