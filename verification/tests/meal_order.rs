use foodtracker_backend::meal_order::sort_meals_by_eat_date;
use foodtracker_backend::models::Meal;

fn meal(id: i64, eat_date: Option<i64>) -> Meal {
    Meal { id, creation_date: 0, eat_date, duration: None, description: None }
}

#[test]
fn newest_first_and_undated_last() {
    let meals = vec![
        meal(1, None),
        meal(2, Some(100)),
        meal(3, Some(300)),
        meal(4, None),
        meal(5, Some(200)),
    ];
    let sorted = sort_meals_by_eat_date(meals);
    let dates: Vec<Option<i64>> = sorted.iter().map(|m| m.eat_date).collect();
    assert_eq!(dates, vec![Some(300), Some(200), Some(100), None, None]);
    let mut ids: Vec<i64> = sorted.iter().map(|m| m.id).collect();
    ids.sort();
    assert_eq!(ids, vec![1, 2, 3, 4, 5]);
}

#[test]
fn already_sorted_input_stays_sorted() {
    let meals = vec![meal(1, Some(50)), meal(2, Some(40)), meal(3, None)];
    let sorted = sort_meals_by_eat_date(meals);
    let dates: Vec<Option<i64>> = sorted.iter().map(|m| m.eat_date).collect();
    assert_eq!(dates, vec![Some(50), Some(40), None]);
}

#[test]
fn empty_and_singleton_listings() {
    assert!(sort_meals_by_eat_date(vec![]).is_empty());
    let sorted = sort_meals_by_eat_date(vec![meal(9, Some(7))]);
    assert_eq!(sorted.len(), 1);
    assert_eq!(sorted[0].id, 9);
}

#[test]
fn equal_dates_all_kept() {
    let meals = vec![meal(1, Some(100)), meal(2, Some(100)), meal(3, Some(100))];
    let sorted = sort_meals_by_eat_date(meals);
    assert_eq!(sorted.len(), 3);
    let mut ids: Vec<i64> = sorted.iter().map(|m| m.id).collect();
    ids.sort();
    assert_eq!(ids, vec![1, 2, 3]);
}
