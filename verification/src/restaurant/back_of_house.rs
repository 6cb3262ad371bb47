//! Where the cooking is done.

use vstd::prelude::*;
use vstd::string::StringExecFns;

verus! {

/// A wrong order is cooked again and served.
pub(crate) fn fix_incorrect_order() {
    cook_order();
    crate::restaurant::front_of_house::serving::server_order();
}

/// Cooks an order.
pub fn cook_order() {
}

/// A breakfast. The guest picks the toast; the fruit is the cook's choice
/// and goes by the season.
pub struct Breakfast {
    /// The bread.
    pub toast: String,
    seasonal_fruit: String,
}

impl Breakfast {
    /// The bread that comes with the breakfast.
    pub closed spec fn bread(&self) -> Seq<char> {
        self.toast@
    }

    /// The fruit that comes with the breakfast.
    pub closed spec fn seasonal_fruit(&self) -> Seq<char> {
        self.seasonal_fruit@
    }

    /// The breakfast of the summer: the toast asked for, with peaches.
    pub fn summer(toast: &str) -> (meal: Breakfast)
        ensures
            meal.bread() == toast@,
            meal.seasonal_fruit() == "peaches"@,
    {
        Breakfast { toast: String::from_str(toast), seasonal_fruit: String::from_str("peaches") }
    }

    /// The bread that comes with the breakfast.
    pub fn toast(&self) -> (toast: &str)
        ensures
            toast@ == self.bread(),
    {
        self.toast.as_str()
    }

    /// Asks for another bread. The fruit stays what it was.
    pub fn set_toast(&mut self, toast: &str)
        ensures
            final(self).bread() == toast@,
            final(self).seasonal_fruit() == old(self).seasonal_fruit(),
    {
        self.toast = String::from_str(toast);
    }
}

/// What comes before the meal.
#[derive(Clone, Copy, Debug, PartialEq, Eq, Structural)]
pub enum Appetizer {
    Soup,
    Salad,
}

} // verus!
