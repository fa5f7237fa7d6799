use foodtracker_backend::density::WeightedItem;
use foodtracker_backend::grouping::group_items_by_dish;
use foodtracker_backend::profile::NutrientProfile;

fn item(weight: i64, kcal: i64) -> WeightedItem {
    WeightedItem {
        weight_grams: weight,
        profile: NutrientProfile { kcal: Some(kcal), protein: None, fat: None, carbohydrate: None },
    }
}

#[test]
fn groups_follow_first_appearance_order() {
    let rows = vec![
        (7, item(100, 200)),
        (8, item(30, 50)),
        (7, item(50, 100)),
        (9, item(10, 10)),
        (8, item(40, 60)),
    ];
    let groups = group_items_by_dish(&rows);
    assert_eq!(groups.len(), 3);
    assert_eq!(groups[0].dish_id, 7);
    assert_eq!(groups[0].items, vec![item(100, 200), item(50, 100)]);
    assert_eq!(groups[1].dish_id, 8);
    assert_eq!(groups[1].items, vec![item(30, 50), item(40, 60)]);
    assert_eq!(groups[2].dish_id, 9);
    assert_eq!(groups[2].items, vec![item(10, 10)]);
}

#[test]
fn no_rows_no_groups() {
    let groups = group_items_by_dish(&vec![]);
    assert!(groups.is_empty());
}

#[test]
fn single_dish_keeps_row_order() {
    let rows = vec![(1, item(3, 1)), (1, item(2, 2)), (1, item(1, 3))];
    let groups = group_items_by_dish(&rows);
    assert_eq!(groups.len(), 1);
    assert_eq!(groups[0].items, vec![item(3, 1), item(2, 2), item(1, 3)]);
}
