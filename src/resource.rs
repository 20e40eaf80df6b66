//! Peripheral handles that can be claimed at most once.
use vstd::prelude::*;

use crate::hw::types::ClaimError;

verus! {

/// What a claim on a slot holding `slot` returns.
pub open spec fn claim_outcome<T>(slot: Option<T>) -> Result<T, ClaimError> {
    match slot {
        Option::Some(handle) => Result::Ok(handle),
        Option::None => Result::Err(ClaimError::AlreadyConsumed),
    }
}

/// A record for one physical peripheral: available while it holds the
/// handle, consumed once the handle has been moved out.
pub struct Claimable<T> {
    handle: Option<T>,
}

impl<T> Claimable<T> {
    /// The handle while the peripheral is available, `None` once consumed.
    pub closed spec fn view(&self) -> Option<T> {
        self.handle
    }

    /// A record that holds `handle`, available to be claimed once.
    pub fn new(handle: T) -> (r: Self)
        ensures
            r@ == Option::Some(handle),
    {
        Claimable { handle: Option::Some(handle) }
    }

    /// A record whose peripheral is already gone.
    pub fn consumed() -> (r: Self)
        ensures
            r@ == Option::<T>::None,
    {
        Claimable { handle: Option::None }
    }

    /// Whether the handle is still there to be claimed.
    pub fn is_available(&self) -> (r: bool)
        ensures
            r == self@.is_some(),
    {
        self.handle.is_some()
    }

    /// Moves the handle out and marks the record consumed; a record that is
    /// consumed already stays so and yields `AlreadyConsumed`.
    pub fn claim(&mut self) -> (r: Result<T, ClaimError>)
        ensures
            r == claim_outcome(old(self)@),
            final(self)@ == Option::<T>::None,
    {
        match self.handle.take() {
            Option::Some(handle) => Result::Ok(handle),
            Option::None => Result::Err(ClaimError::AlreadyConsumed),
        }
    }
}

/// A peripheral is handed out at most once: the first claim on an available
/// record succeeds with its handle, and every later claim fails with
/// `AlreadyConsumed`.
pub proof fn lemma_claim_at_most_once<T>(handle: T)
    ensures
        claim_outcome(Option::Some(handle)) == Result::<T, ClaimError>::Ok(handle),
        claim_outcome(Option::<T>::None) == Result::<T, ClaimError>::Err(ClaimError::AlreadyConsumed),
{
}

} // verus!
