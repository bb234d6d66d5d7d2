//! The two handle types and their operations.
//!
//! [`My`] is the single owning handle, fused with the storage cell it
//! administers: it holds the payload, the live-borrow count, and the
//! lifecycle phase. [`Dyb`] is a borrow handle: a token that stands for one
//! unit of the cell's count. A `Dyb` is created only by [`My::borrow`] or
//! [`Dyb::duplicate`] (each raises the count by one) and consumed only by
//! [`Dyb::release`] (which lowers it by one), so in any well-typed client
//! the count equals the number of live borrow handles.
//!
//! Releasing the owner is explicit here: [`My::release`] inspects the count
//! and either frees the storage (count zero) or reports a fault and leaks
//! the storage, keeping it valid for the borrows that outlived the owner.

use crate::model::{
    cell_borrow, cell_new, cell_release, cell_return, release_outcome, CellModel, Phase,
    ReleaseOutcome,
};
use vstd::prelude::*;

verus! {

/// The single exclusively-owning handle to a value, fused with the storage
/// cell that holds the value and the live-borrow count.
pub struct My<T> {
    count: u64,
    phase: Phase,
    data: Option<T>,
}

/// A dynamic borrow of a value owned by a [`My`]. Each live `Dyb` accounts
/// for exactly one unit of its cell's borrow count: creating one raises the
/// count, releasing one lowers it.
pub struct Dyb<T> {
    value: Ghost<T>,
}

impl<T> View for My<T> {
    type V = CellModel<T>;

    closed spec fn view(&self) -> CellModel<T> {
        CellModel { count: self.count as nat, phase: self.phase, data: self.data }
    }
}

impl<T> View for Dyb<T> {
    type V = T;

    closed spec fn view(&self) -> T {
        self.value@
    }
}

/// The owner-release policy: the storage may be freed exactly when no
/// borrows are outstanding; any outstanding borrow makes the release a
/// fault.
pub fn release_decision(count: u64) -> (r: ReleaseOutcome)
    ensures
        r == ReleaseOutcome::Freed <==> count == 0,
{
    if count == 0 {
        ReleaseOutcome::Freed
    } else {
        ReleaseOutcome::Faulted
    }
}

/// The fixed diagnostic that accompanies a faulting owner release.
pub fn fault_message() -> (s: &'static str)
    ensures
        s@ == "My pointer dropped with outstanding Dybs - this will leak the resource"@,
{
    "My pointer dropped with outstanding Dybs - this will leak the resource"
}

impl<T> My<T> {
    /// Construct a new exclusively-owning `My` around a value: a fresh live
    /// storage cell with a borrow count of zero.
    pub fn new(data: T) -> (r: My<T>)
        ensures
            r@ == cell_new(data),
            r@.inv(),
    {
        My { count: 0, phase: Phase::Live, data: Some(data) }
    }

    /// Take a dynamic borrow of the value: the count rises by one and the
    /// returned handle views exactly the owned value.
    pub fn borrow(&mut self) -> (r: Dyb<T>)
        requires
            old(self)@.inv(),
            old(self)@.phase is Live,
            old(self)@.count < u64::MAX,
        ensures
            final(self)@ == cell_borrow(old(self)@),
            final(self)@.inv(),
            r@ == old(self)@.value(),
    {
        self.count = self.count + 1;
        let ghost v = self.data->Some_0;
        Dyb { value: Ghost(v) }
    }

    /// Read the owned value through the owner itself.
    pub fn access(&self) -> (r: &T)
        requires
            self@.inv(),
            !(self@.phase is Freed),
        ensures
            *r == self@.value(),
    {
        self.data.as_ref().unwrap()
    }

    /// Release the owner. With no borrows outstanding the storage cell is
    /// freed and the release succeeds; otherwise the release faults and the
    /// cell is leaked: its payload and count are kept intact, so every
    /// borrow that outlived the owner stays valid.
    pub fn release(&mut self) -> (r: ReleaseOutcome)
        requires
            old(self)@.inv(),
            old(self)@.phase is Live,
        ensures
            r == release_outcome(old(self)@),
            final(self)@ == cell_release(old(self)@),
            final(self)@.inv(),
    {
        let decision = release_decision(self.count);
        match decision {
            ReleaseOutcome::Freed => {
                self.data = None;
                self.phase = Phase::Freed;
            },
            ReleaseOutcome::Faulted => {
                self.phase = Phase::Leaked;
            },
        }
        decision
    }
}

impl<T: Clone> My<T> {
    /// Deep duplication of the owner: a brand-new live cell, with a count of
    /// zero, around an independently cloned value. This is not aliasing; the
    /// original cell is untouched.
    pub fn duplicate(&self) -> (r: My<T>)
        requires
            self@.inv(),
            !(self@.phase is Freed),
        ensures
            r@.phase is Live,
            r@.count == 0,
            r@.data is Some,
            r@.inv(),
            vstd::pervasive::strictly_cloned::<T>(self@.value(), r@.value()),
    {
        My::new(self.data.as_ref().unwrap().clone())
    }
}

impl<T> Dyb<T> {
    /// Read the borrowed value. A live `Dyb` guarantees its cell's count is
    /// at least one, so the cell cannot have been freed: the owner would
    /// have faulted and leaked it instead.
    pub fn access<'a>(&self, owner: &'a My<T>) -> (r: &'a T)
        requires
            owner@.inv(),
            owner@.data == Some(self@),
        ensures
            *r == self@,
    {
        owner.data.as_ref().unwrap()
    }

    /// Duplicate this borrow: the cell's count rises by one more and the new
    /// handle views the same value.
    pub fn duplicate(&self, owner: &mut My<T>) -> (r: Dyb<T>)
        requires
            old(owner)@.inv(),
            old(owner)@.count >= 1,
            old(owner)@.count < u64::MAX,
            old(owner)@.data == Some(self@),
        ensures
            final(owner)@ == cell_borrow(old(owner)@),
            final(owner)@.inv(),
            r@ == self@,
    {
        owner.count = owner.count + 1;
        Dyb { value: self.value }
    }

    /// Release this borrow: the cell's count falls by one. This never frees
    /// the storage — only the owner may do that — and it is safe on a leaked
    /// cell too, so a borrow that outlived a faulted owner is still released
    /// normally.
    pub fn release(self, owner: &mut My<T>)
        requires
            old(owner)@.inv(),
            old(owner)@.count >= 1,
            old(owner)@.data == Some(self@),
        ensures
            final(owner)@ == cell_return(old(owner)@),
            final(owner)@.inv(),
    {
        owner.count = owner.count - 1;
    }
}

} // verus!
