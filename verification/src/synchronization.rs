//! Synchronization primitives.
//!
//! The system never runs more than one logical thread of control, so
//! exclusive access needs no blocking or contention handling: a lock is
//! modelled as exclusive borrowing of the contained data.

use vstd::prelude::*;

verus! {

/// Any object implementing this trait guarantees exclusive access to the
/// data wrapped within the Mutex for the duration of the borrow.
pub trait Mutex {
    /// The type of the wrapped data.
    type Data;

    /// The wrapped data.
    spec fn spec_data(&self) -> Self::Data;

    /// Exclusive access to the wrapped data.
    fn lock(&mut self) -> (r: &mut Self::Data)
        ensures
            *r == old(self).spec_data(),
            final(self).spec_data() == *final(r),
    ;
}

/// A pseudo-lock: it wraps its data and hands out exclusive access without
/// any real locking, which is sound only because this kernel is single-core
/// and runs without pre-emption.
pub struct NullLock<T> {
    data: T,
}

impl<T> NullLock<T> {
    /// Create an instance wrapping the given data.
    pub fn new(data: T) -> (r: Self)
        ensures
            r.spec_data() == data,
    {
        NullLock { data }
    }
}

impl<T> Mutex for NullLock<T> {
    type Data = T;

    closed spec fn spec_data(&self) -> T {
        self.data
    }

    fn lock(&mut self) -> (r: &mut T) {
        &mut self.data
    }
}

} // verus!
