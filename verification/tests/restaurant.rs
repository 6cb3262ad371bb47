use primer::restaurant::back_of_house::{cook_order, Appetizer, Breakfast};
use primer::restaurant::front_of_house::hosting::add_to_waitlist;
use primer::restaurant::front_of_house::serving::server_order;
use primer::restaurant::re_export_mod::func;
use primer::restaurant::{
    eat_at_restaurant, eat_breakfast_at_restaurant, function1, function2, secret_number,
    use_absolute_func, use_absolute_path, use_relative_path,
};

#[test]
fn the_summer_breakfast_comes_with_the_toast_asked_for() {
    let mut meal = Breakfast::summer("Rye");
    assert_eq!(meal.toast, "Rye");
    assert_eq!(meal.toast(), "Rye");
    meal.toast = String::from("Wheat");
    assert_eq!(meal.toast(), "Wheat");
    meal.set_toast("White");
    assert_eq!(meal.toast, "White");
}

#[test]
fn the_guest_asks_for_wheat_in_the_end() {
    assert_eq!(eat_breakfast_at_restaurant(), "I'd like Wheat toast please");
}

#[test]
fn the_secret_number_is_between_1_and_100() {
    let mut low = false;
    let mut high = false;
    for _ in 0..2000 {
        let n = secret_number();
        assert!((1..=100).contains(&n));
        low = low || n <= 50;
        high = high || n > 50;
    }
    assert!(low && high);
}

#[test]
fn every_path_leads_to_the_same_functions() {
    add_to_waitlist();
    server_order();
    cook_order();
    func();
    eat_at_restaurant();
    use_relative_path();
    use_absolute_path();
    use_absolute_func();
    assert_ne!(Appetizer::Soup, Appetizer::Salad);
}

#[test]
fn both_kinds_of_result_are_ok() {
    assert!(function1().is_ok());
    assert!(function2().is_ok());
}
