use vstd::prelude::*;
use std::cell::RefCell;

verus! {

#[verifier::external_type_specification]
#[verifier::external_body]
#[verifier::reject_recursive_types(T)]
pub struct ExRefCell<T: ?Sized>(RefCell<T>);

/// Relies on `RefCell::new`: it wraps `value` in a cell that nothing borrows.
pub assume_specification<T>[ RefCell::<T>::new ](value: T) -> RefCell<T>;

/// A channel that messages can be sent through.
pub trait Messenger {
    fn send(&self, msg: &str);
}

/// A messenger that keeps every message sent through it, for inspection.
pub struct MockMessenger {
    pub sent_messages: RefCell<Vec<String>>,
}

impl MockMessenger {
    /// A messenger that has recorded nothing yet.
    pub fn new() -> MockMessenger {
        MockMessenger { sent_messages: RefCell::new(Vec::new()) }
    }
}

/// Relies on `RefCell::try_borrow_mut`: it hands out the vector inside the
/// cell for the length of the call when nothing else borrows the cell, and
/// `msg` is pushed onto it; it never panics. While a caller holds a borrow of
/// the (public) cell, the message is dropped instead.
#[verifier::external_body]
fn record(log: &RefCell<Vec<String>>, msg: String) {
    if let Ok(mut messages) = log.try_borrow_mut() {
        messages.push(msg)
    }
}

impl Messenger for MockMessenger {
    /// Records `msg` after the messages sent before it; while a caller holds
    /// a borrow of `sent_messages`, the message is dropped.
    fn send(&self, msg: &str) {
        record(&self.sent_messages, msg.to_owned())
    }
}

} // verus!
