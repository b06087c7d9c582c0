use vstd::prelude::*;

verus! {

/// A breakfast order: the guest picks the toast, the kitchen picks the fruit.
pub struct Breakfast {
    pub toast: String,
    seasonal_fruit: String,
}

/// The fruit the kitchen serves in this season.
pub open spec fn season_fruit() -> Seq<char> {
    "peaches"@
}

impl Breakfast {
    /// The toast of this breakfast.
    pub closed spec fn toast_text(&self) -> Seq<char> {
        self.toast@
    }

    /// The fruit that comes with this breakfast; guests cannot change it.
    pub closed spec fn fruit(&self) -> Seq<char> {
        self.seasonal_fruit@
    }

    /// A summer breakfast with the given toast and the season's fruit.
    pub fn summber(toast: &str) -> (b: Breakfast)
        ensures
            b.toast_text() == toast@,
            b.fruit() == season_fruit(),
    {
        Breakfast { toast: toast.to_owned(), seasonal_fruit: "peaches".to_owned() }
    }
}

/// The starters on the menu.
#[derive(Clone, Copy, Debug, PartialEq, Eq, Structural)]
pub enum Appetizer {
    Soup,
    Salad,
}

/// Prepares an order in the kitchen.
pub fn cook_order() {
}

/// Cooks an order again after it came back wrong.
pub fn fix_incorrect_order() {
    cook_order();
}

/// The request a guest makes for toast of the given kind.
pub open spec fn toast_request(toast: Seq<char>) -> Seq<char> {
    "I'd like "@ + toast + " toast please"@
}

/// A guest orders the summer breakfast on rye, changes the toast to wheat,
/// and states the request; the result is what the guest says.
pub fn eat_at_restaurant() -> (r: String)
    ensures
        r@ == toast_request("Wheat"@),
{
    let mut meal = Breakfast::summber("Rye");
    meal.toast = "Wheat".to_owned();
    let mut line = "I'd like ".to_owned();
    line.append(meal.toast.as_str());
    line.append(" toast please");
    line
}

} // verus!
