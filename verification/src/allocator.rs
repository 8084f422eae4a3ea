//! The allocation strategy a [`crate::Vector`] is parameterized over.

use vstd::prelude::*;
use crate::intoiter::RawVector;

verus! {

/// A memory-allocation strategy.
///
/// Growing and shrinking are the business of the array itself and are not
/// modelled here; the one entry point the ownership-transfer protocol
/// depends on is [`Allocator::release_raw`], which gives the backing
/// storage back to the allocator *without running any element destructor*.
/// Its precondition — every slot already vacated — is what makes the
/// teardown protocol safe: by the time the storage is released, each
/// element's ownership has been transferred away exactly once, so there is
/// nothing left that a release could leak or destroy twice.
pub trait Allocator: Sized {
    /// Releases raw backing storage, running no element destructor.
    ///
    /// Callers must have discharged every element first: a slot still live
    /// at release time would either leak or, if the release also destroyed
    /// it, risk a double-destruction in the hands of whoever received the
    /// element earlier.
    fn release_raw<T>(&self, storage: RawVector<T>)
        requires
            storage.all_vacated(),
    ;
}

/// The default allocation strategy: storage lives on the global heap and
/// returns to it when released.
pub struct Global;

impl Allocator for Global {
    fn release_raw<T>(&self, storage: RawVector<T>) {
        let _ = storage;
    }
}

} // verus!
