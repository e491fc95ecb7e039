//! One-shot transfer of a resource from a shared holder to its only owner.

use vstd::prelude::*;

verus! {

/// Why a handoff did not yield the resource.
#[derive(Clone, Copy, Debug, PartialEq, Eq, Structural)]
pub enum HandoffError {
    /// The resource was handed out before; the cell is empty for good.
    AlreadyTaken,
}

/// A cell that starts out holding a resource and gives it away exactly once.
pub struct HandoffCell<T> {
    slot: Option<T>,
}

/// What one `take` does to a cell that holds `held`: the cell is empty
/// afterwards, and the caller gets the resource if there was one.
pub open spec fn taken<T>(held: Option<T>) -> (Option<T>, Result<T, HandoffError>) {
    match held {
        Some(resource) => (None, Ok(resource)),
        None => (None, Err(HandoffError::AlreadyTaken)),
    }
}

/// What the `n`-th of `n` successive takes returns, `n >= 1`, from a cell
/// that holds `held` before the first of them.
pub open spec fn nth_take<T>(held: Option<T>, n: nat) -> Result<T, HandoffError>
    decreases n,
{
    if n <= 1 {
        taken(held).1
    } else {
        nth_take(taken(held).0, (n - 1) as nat)
    }
}

impl<T> HandoffCell<T> {
    /// The resource that the cell still holds, if any.
    pub closed spec fn view(&self) -> Option<T> {
        self.slot
    }

    /// A cell that holds `resource`, ready for its single handoff.
    pub fn new(resource: T) -> (cell: Self)
        ensures
            cell@ == Some(resource),
    {
        HandoffCell { slot: Some(resource) }
    }

    /// Whether the resource is still in the cell.
    pub fn is_available(&self) -> (available: bool)
        ensures
            available == (self@ is Some),
    {
        self.slot.is_some()
    }

    /// Hands the resource out and leaves the cell empty. Every later call
    /// fails with `AlreadyTaken`.
    pub fn take(&mut self) -> (handed: Result<T, HandoffError>)
        ensures
            (final(self)@, handed) == taken(old(self)@),
            final(self)@ is None,
            handed is Ok <==> old(self)@ is Some,
            handed is Ok ==> old(self)@ == Some(handed->Ok_0),
            handed is Err ==> handed == Err::<T, HandoffError>(HandoffError::AlreadyTaken),
    {
        match self.slot.take() {
            Some(resource) => Ok(resource),
            None => Err(HandoffError::AlreadyTaken),
        }
    }
}

/// A handoff succeeds exactly once: of any number of takes from a cell made
/// with `resource`, the first returns the resource and every later one fails
/// with `AlreadyTaken`.
pub proof fn lemma_handoff_succeeds_exactly_once<T>(resource: T, n: nat)
    requires
        n >= 1,
    ensures
        nth_take(Some(resource), n) == if n == 1 {
            Ok::<T, HandoffError>(resource)
        } else {
            Err::<T, HandoffError>(HandoffError::AlreadyTaken)
        },
{
    if n >= 2 {
        lemma_empty_cell_stays_empty::<T>((n - 1) as nat);
    }
}

/// An empty cell never yields anything, however often it is asked.
pub proof fn lemma_empty_cell_stays_empty<T>(n: nat)
    requires
        n >= 1,
    ensures
        nth_take(None::<T>, n) == Err::<T, HandoffError>(HandoffError::AlreadyTaken),
    decreases n,
{
    if n >= 2 {
        lemma_empty_cell_stays_empty::<T>((n - 1) as nat);
    }
}

} // verus!
