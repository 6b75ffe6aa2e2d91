//! A restaurant front: hosting, serving and the breakfast menu.

use vstd::prelude::*;
use vstd::string::StringExecFns;

verus! {

/// Adds two unsigned numbers.
pub fn add(left: usize, right: usize) -> (r: usize)
    requires
        left + right <= usize::MAX,
    ensures
        r == left + right,
{
    left + right
}

/// Puts a party on the waitlist.
pub fn add_to_waitlist() {
}

/// Seats a waiting party at a table.
pub fn seat_at_table() {
}

/// Takes a seated party's order.
pub fn take_order() {
}

/// Serves a prepared order.
pub fn serve_order() {
}

/// Takes the payment for a served order.
pub fn take_payment() {
}

/// Prepares an order in the kitchen.
pub fn cook_order() {
}

/// Brings an order out, taking it from serving.
pub fn deliver_order() {
    take_order();
}

/// Re-cooks and re-delivers an order that went out wrong.
pub fn fix_incorrect_order() {
    cook_order();
    deliver_order();
}

/// A breakfast order: the diner picks the toast, the kitchen picks the
/// seasonal fruit.
pub struct Breakfast {
    pub toast: String,
    seasonal_fruit: String,
}

impl Breakfast {
    /// The toast the diner picked.
    pub closed spec fn toast_view(&self) -> Seq<char> {
        self.toast@
    }

    /// The fruit the kitchen picked.
    pub closed spec fn fruit_view(&self) -> Seq<char> {
        self.seasonal_fruit@
    }

    /// The summer breakfast: the chosen toast with peaches.
    pub fn summer(toast: &str) -> (r: Breakfast)
        ensures
            r.toast_view() == toast@,
            r.fruit_view() == "peaches"@,
    {
        Breakfast { toast: toast.to_owned(), seasonal_fruit: String::from_str("peaches") }
    }
}

/// The appetizers on offer.
#[derive(Debug, Clone, Copy, PartialEq, Eq, Structural)]
pub enum Appetizer {
    Soup,
    Salad,
}

/// Walks in and joins the waitlist.
pub fn eat_at_restaurant() {
    add_to_waitlist();
}

} // verus!
