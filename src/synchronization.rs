//! Exclusive access to driver state on the single-core boot path.
use vstd::prelude::*;

verus! {

/// Grants exclusive mutable access to the value it protects.
///
/// It arbitrates nothing at run time: exclusivity comes from Rust's borrow of
/// `&mut self`, which is sound only while a single, non-reentrant thread of
/// control runs. A build that adds a second core or interrupt handlers touching
/// the same value needs a real lock (a spinlock, or masking interrupts for the
/// critical section) in its place.
pub struct NullLock<T> {
    data: T,
}

impl<T> NullLock<T> {
    /// The value the lock protects.
    pub closed spec fn view(&self) -> T {
        self.data
    }

    /// Places `data` under the lock.
    pub fn new(data: T) -> (r: NullLock<T>)
        ensures
            r.view() == data,
    {
        NullLock { data }
    }

    /// Exclusive access to the protected value for as long as the lock is borrowed.
    pub fn lock(&mut self) -> (r: &mut T)
        ensures
            *r == old(self).view(),
            final(self).view() == *final(r),
    {
        &mut self.data
    }

    /// Shared access to the protected value.
    pub fn get(&self) -> (r: &T)
        ensures
            *r == self.view(),
    {
        &self.data
    }
}

} // verus!
