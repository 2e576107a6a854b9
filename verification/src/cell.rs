//! A mutable container for DOM-like state whose dynamic borrow checks
//! have been traded away: with exclusive access threaded through the
//! call chain, plain borrows suffice and a borrow can never fail.

use vstd::prelude::*;

verus! {

/// A mutable field of DOM-like state. Borrowing goes through ordinary
/// references, so exclusive access is enforced by the borrow checker at
/// compile time rather than counted at run time.
pub struct DomRefCell<T> {
    value: T,
}

impl<T> DomRefCell<T> {
    /// The contained value.
    pub closed spec fn spec_value(&self) -> T {
        self.value
    }

    /// Creates a new cell containing `value`.
    pub fn new(value: T) -> (c: DomRefCell<T>)
        ensures
            c.spec_value() == value,
    {
        DomRefCell { value }
    }

    /// Borrows the wrapped value.
    pub fn borrow(&self) -> (r: &T)
        ensures
            *r == self.spec_value(),
    {
        &self.value
    }

    /// Mutably borrows the wrapped value.
    pub fn borrow_mut(&mut self) -> (r: &mut T)
        ensures
            *r == old(self).spec_value(),
            final(self).spec_value() == *final(r),
    {
        &mut self.value
    }
}

} // verus!
