use trpl::restaurant::{eat_at_restaurant, fix_incorrect_order, Appetizer, Breakfast};

#[test]
fn summer_breakfast_keeps_toast() {
    let meal = Breakfast::summber("Rye");
    assert_eq!(meal.toast, "Rye");
}

#[test]
fn guest_asks_for_wheat() {
    assert_eq!(eat_at_restaurant(), "I'd like Wheat toast please");
}

#[test]
fn appetizers_differ() {
    assert_ne!(Appetizer::Soup, Appetizer::Salad);
    fix_incorrect_order();
}
