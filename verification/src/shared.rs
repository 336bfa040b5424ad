//! Shared, interiorly mutable state.
//!
//! Some mock objects of this crate hand out handles that share one piece of
//! state (a queue of expected notifications, a counter, a queue of polled
//! values). The state lives in an `Rc<RefCell<T>>`; the only access to it is
//! [`shared_replace`], which swaps a new value in and hands the previous one
//! back. All the logic that looks at the state works on the owned value in
//! between and is verified. (The mock clock keeps its time in a
//! `vstd::cell::invcell::InvCell` instead, whose invariant says what every
//! reading of it holds.)
use std::cell::RefCell;
use std::collections::VecDeque;
use std::rc::Rc;
use vstd::prelude::*;

verus! {

/// `std::cell::RefCell`, opaque to the verifier.
#[verifier::external_type_specification]
#[verifier::external_body]
#[verifier::reject_recursive_types(T)]
pub struct ExRefCell<T: ?Sized>(RefCell<T>);

/// Calls `RefCell::replace` on the shared cell: stores `value` and returns
/// what the cell held before. Nothing is stated about the previous value, since
/// other handles to the same cell may have changed it at any time.
/// `RefCell::replace` panics when the cell is borrowed; every cell passed here
/// sits in a private field of a type of this crate (its handles are clones
/// of that type, never the `Rc` itself), and this function is the only code
/// that touches it, so no borrow is ever held when it is called.
#[verifier::external_body]
pub(crate) fn shared_replace<T>(cell: &Rc<RefCell<T>>, value: T) -> (previous: T) {
    cell.replace(value)
}

/// Calls `RefCell::new`: a cell holding `value`. Its contents are opaque to
/// the verifier, so nothing is stated about them.
#[verifier::external_body]
pub(crate) fn new_cell<T>(value: T) -> (cell: RefCell<T>) {
    RefCell::new(value)
}

/// A fresh shared cell holding `value`, not yet shared with anyone.
pub fn shared_new<T>(value: T) -> (cell: Rc<RefCell<T>>) {
    Rc::new(new_cell(value))
}

/// Calls `Rc::clone`: a second handle to the same value. Equality of two `Rc`
/// values in specifications is equality of what they point to, so the clone
/// is equal to the original.
#[verifier::external_body]
pub(crate) fn shared_clone<T>(cell: &Rc<T>) -> (res: Rc<T>)
    ensures
        res == *cell,
{
    Rc::clone(cell)
}

/// A first-in first-out queue whose handles share one content: a value pushed
/// through one handle is popped through any other.
#[verifier::reject_recursive_types(T)]
pub struct SharedQueue<T> {
    cell: Rc<RefCell<VecDeque<T>>>,
}

impl<T> SharedQueue<T> {
    /// An empty queue with one handle.
    pub fn new() -> Self {
        SharedQueue { cell: shared_new(VecDeque::new()) }
    }

    /// Whether two handles share one queue.
    pub closed spec fn shares_with(&self, other: &SharedQueue<T>) -> bool {
        self.cell == other.cell
    }

    /// Another handle to the same queue.
    pub fn shallow_clone(&self) -> (r: Self)
        ensures
            r.shares_with(self),
    {
        SharedQueue { cell: shared_clone(&self.cell) }
    }

    /// Adds `value` at the back.
    pub fn push_back(&self, value: T) {
        let mut q = shared_replace(&self.cell, VecDeque::new());
        q.push_back(value);
        let _ = shared_replace(&self.cell, q);
    }

    /// Takes the value at the front, if any.
    pub fn pop_front(&self) -> Option<T> {
        let mut q = shared_replace(&self.cell, VecDeque::new());
        let r = q.pop_front();
        let _ = shared_replace(&self.cell, q);
        r
    }

    /// Whether the queue is empty.
    pub fn is_empty(&self) -> bool {
        let q = shared_replace(&self.cell, VecDeque::new());
        let r = q.len() == 0;
        let _ = shared_replace(&self.cell, q);
        r
    }
}

} // verus!
