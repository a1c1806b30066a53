use vstd::prelude::*;
use vstd::string::StringExecFns;

verus! {

/// A breakfast order: the toast can be chosen, the fruit is the season's.
pub struct Breakfast {
    pub toast: String,
    seasonal_fruit: String,
}

impl Breakfast {
    /// The toast of this breakfast.
    pub closed spec fn bread(&self) -> Seq<char> {
        self.toast@
    }

    /// The fruit that comes with this breakfast.
    pub closed spec fn fruit(&self) -> Seq<char> {
        self.seasonal_fruit@
    }

    /// A summer breakfast with `toast`, served with peaches.
    pub fn summer(toast: &str) -> (r: Breakfast)
        ensures
            r.bread() == toast@,
            r.fruit() == "peaches"@,
    {
        Breakfast { toast: toast.to_owned(), seasonal_fruit: String::from_str("peaches") }
    }
}

/// A starter course.
pub enum Appetizer {
    Soup,
    Salad,
}

} // verus!
