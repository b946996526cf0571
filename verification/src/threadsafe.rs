//! The strategy for groups whose cells and token travel between threads.

use crate::behavior::Behavior;
use crate::behavior::Unconstrained;
use std::sync::Arc;
use vstd::prelude::*;
use vstd::rwlock::RwLock;
use vstd::rwlock::RwLockPredicate;

verus! {

/// A [`SharedMode`](crate::mode::SharedMode) of the [`ThreadSafe`] strategy.
pub type SharedMode = crate::mode::SharedMode<ThreadSafe>;

/// An [`ExclusiveMode`](crate::mode::ExclusiveMode) of the [`ThreadSafe`] strategy.
pub type ExclusiveMode<'a> = crate::mode::ExclusiveMode<'a, ThreadSafe>;

/// A [`SharedCell`](crate::cell::SharedCell) of the [`ThreadSafe`] strategy.
pub type SharedCell<T> = crate::cell::SharedCell<T, ThreadSafe>;

/// An [`ExclusiveCell`](crate::cell::ExclusiveCell) of the [`ThreadSafe`] strategy.
pub type ExclusiveCell<T> = crate::cell::ExclusiveCell<T, ThreadSafe>;

/// A [`RefMut`](crate::cell::RefMut) of the [`ThreadSafe`] strategy.
pub type RefMut<'a, T> = crate::cell::RefMut<'a, T, ThreadSafe>;

impl<T> RwLockPredicate<T> for Unconstrained {
    open spec fn inv(self, v: T) -> bool {
        true
    }
}

/// The handle of the [`ThreadSafe`] strategy: an atomically counted pointer to
/// a reader-writer lock that accepts every value.
pub type Atomic<T> = Arc<RwLock<T, Unconstrained>>;

/// Sharing by [`Arc`]: handles may cross threads.
///
/// The allocation is freed with its last handle, but what the lock holds at
/// that moment is not dropped: an `RwLock` of vstd does not run the
/// destructor of its contents. For a value that owns nothing this makes no
/// difference. A value that owns memory keeps it, unless it is taken out of
/// the lock first with [`Behavior::replace`].
pub struct ThreadSafe;

/// `Arc::ptr_eq`: whether both handles point to one allocation.
///
/// In contracts a handle is the lock it points to, and a lock is known only
/// by which lock it is. A lock is never copied and is moved into its
/// allocation once, so two handles hold the same lock exactly when they point
/// to one allocation: that is what the clause says.
#[verifier::external_body]
fn arc_ptr_eq<T>(a: &Atomic<T>, b: &Atomic<T>) -> (same: bool)
    ensures
        same == (*a == *b),
{
    Arc::ptr_eq(a, b)
}

impl<T> Behavior<T> for ThreadSafe {
    type Container = Atomic<T>;

    fn new(value: T) -> (handle: Self::Container) {
        Arc::new(RwLock::new(value, Ghost(Unconstrained)))
    }

    fn share(handle: &Self::Container) -> (other: Self::Container) {
        Arc::clone(handle)
    }

    fn ptr_eq(a: &Self::Container, b: &Self::Container) -> (same: bool) {
        arc_ptr_eq(a, b)
    }

    fn replace(handle: &Self::Container, value: T) -> (previous: T) {
        let (previous, writing) = handle.acquire_write();
        writing.release_write(value);
        previous
    }

    fn load(handle: &Self::Container) -> (value: T) where T: Copy {
        let reading = handle.acquire_read();
        let value = *reading.borrow();
        reading.release_read();
        value
    }
}

} // verus!
