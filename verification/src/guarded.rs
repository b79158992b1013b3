//! A cell that admits one writer at a time, checked when the access is made.
//!
//! Each subsystem of the engine state sits in such a cell. Whoever wants to
//! change a subsystem over a stretch of code takes it on loan and gives it
//! back afterwards; a second loan before that is refused on the spot, so
//! that two writers can never hold the same subsystem.

use vstd::prelude::*;

verus! {

/// Why an access to a cell was refused.
#[derive(Copy, Clone, Debug, PartialEq, Eq, Structural)]
pub enum AccessError {
    /// The value is on loan to another writer.
    AlreadyLent,
}

/// What an attempt to take a loan comes to, by whether the cell was lent
/// before: whether the loan is granted, and whether the cell is lent after.
pub open spec fn loan_outcome(lent_before: bool) -> (bool, bool) {
    (!lent_before, true)
}

pub struct Guarded<T> {
    slot: Option<T>,
}

impl<T> Guarded<T> {
    /// Whether the value is out on loan.
    pub closed spec fn is_lent(&self) -> bool {
        self.slot is None
    }

    /// The value in the cell. It has a meaning only while the cell is not
    /// lent.
    pub closed spec fn value(&self) -> T {
        self.slot->0
    }

    /// A cell that holds `value`, not lent.
    pub fn new(value: T) -> (r: Guarded<T>)
        ensures
            !r.is_lent(),
            r.value() == value,
    {
        Guarded { slot: Some(value) }
    }

    /// Whether a loan would be granted now.
    pub fn is_available(&self) -> (b: bool)
        ensures
            b == !self.is_lent(),
    {
        self.slot.is_some()
    }

    /// Takes the value on loan, if it is not lent already. A refused attempt
    /// changes nothing: the cell stays lent to the first writer.
    pub fn try_lend(&mut self) -> (r: Result<T, AccessError>)
        ensures
            (r is Ok, final(self).is_lent()) == loan_outcome(old(self).is_lent()),
            !old(self).is_lent() ==> r == Ok::<T, AccessError>(old(self).value()),
            old(self).is_lent() ==> r == Err::<T, AccessError>(AccessError::AlreadyLent),
    {
        match self.slot.take() {
            Some(value) => Ok(value),
            None => Err(AccessError::AlreadyLent),
        }
    }

    /// Takes the value on loan from a cell that is known not to be lent.
    pub fn lend(&mut self) -> (value: T)
        requires
            !old(self).is_lent(),
        ensures
            value == old(self).value(),
            final(self).is_lent(),
    {
        match self.slot.take() {
            Some(value) => value,
            None => vstd::pervasive::unreached(),
        }
    }

    /// Ends a loan: `value` is in the cell from now on and the cell can be
    /// lent again. The answer is the value that `value` displaced, which is
    /// `None` where the cell was lent.
    pub fn give_back(&mut self, value: T) -> (displaced: Option<T>)
        ensures
            !final(self).is_lent(),
            final(self).value() == value,
            old(self).is_lent() ==> displaced is None,
            !old(self).is_lent() ==> displaced == Some(old(self).value()),
    {
        let displaced = self.slot.take();
        self.slot = Some(value);
        displaced
    }

    /// A look at the value of a cell that is not lent.
    pub fn get(&self) -> (value: &T)
        requires
            !self.is_lent(),
        ensures
            *value == self.value(),
    {
        match &self.slot {
            Some(value) => value,
            None => vstd::pervasive::unreached(),
        }
    }

    /// A look at the value, or `None` while it is lent.
    pub fn try_get(&self) -> (value: Option<&T>)
        ensures
            self.is_lent() ==> value is None,
            !self.is_lent() ==> value == Some(&self.value()),
    {
        self.slot.as_ref()
    }

    /// Access to the value in place, for a cell that is not lent. The cell
    /// is not lent afterwards either.
    pub fn get_mut(&mut self) -> (value: &mut T)
        requires
            !old(self).is_lent(),
        ensures
            *value == old(self).value(),
            !final(self).is_lent(),
            final(self).value() == *final(value),
    {
        match &mut self.slot {
            Some(value) => value,
            None => vstd::pervasive::unreached(),
        }
    }
}

/// Of two attempts to take the same cell on loan, with nothing given back in
/// between, the second is refused, whether or not the first was granted.
pub proof fn law_second_loan_is_refused(lent_before: bool)
    ensures
        !loan_outcome(loan_outcome(lent_before).1).0,
        loan_outcome(loan_outcome(lent_before).1).1,
{
}

} // verus!
