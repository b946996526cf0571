//! How a group stores what it shares: the handle type, and what a handle can do.

use std::rc::Rc;
use vstd::cell::invcell::InvCell;
use vstd::predicate::Predicate;
use vstd::prelude::*;

verus! {

/// A strategy for sharing one value of type `T` among several owners.
///
/// A `Container` is a handle: a counted pointer to one allocation that holds
/// the value behind interior mutability. In contracts a handle stands for the
/// allocation it points to and for nothing else, so two handles are equal
/// there exactly when they share an allocation. The contents are not part of
/// a handle's value and no method here promises anything about them.
///
/// An implementation must make `share` and `ptr_eq` agree with that reading:
/// every cell and token of this crate tells its group by `ptr_eq` alone.
/// What `new`, `load` and `replace` give is handed on as it comes; the tokens
/// and cells say of their results only which handle and which value the
/// strategy was given, in terms of [`makes`], [`reads`] and [`writes`].
pub trait Behavior<T> {
    /// The handle type of this strategy.
    type Container;

    /// Puts `value` into a new allocation and returns the only handle to it.
    ///
    /// Whether the contents are dropped when the last handle goes is the
    /// strategy's to say; neither strategy of this crate drops them.
    fn new(value: T) -> (handle: Self::Container);

    /// Returns one more handle to the allocation of `handle`.
    fn share(handle: &Self::Container) -> (other: Self::Container)
        ensures
            other == *handle,
    ;

    /// Tells whether `a` and `b` point to the same allocation.
    fn ptr_eq(a: &Self::Container, b: &Self::Container) -> (same: bool)
        ensures
            same == (*a == *b),
    ;

    /// Stores `value` in the allocation and hands back what it held before.
    fn replace(handle: &Self::Container, value: T) -> (previous: T);

    /// Copies out what the allocation holds now.
    fn load(handle: &Self::Container) -> (value: T) where T: Copy;
}

/// Whether `handle` is what the strategy `B` can make for `value`: a result
/// that its `new` can give for that value.
pub open spec fn makes<T, B: Behavior<T>>(value: T, handle: B::Container) -> bool {
    call_ensures(B::new, (value,), handle)
}

/// Whether `value` is what the strategy `B` can read from `handle`: a result
/// that its `load` can give for that handle.
pub open spec fn reads<T: Copy, B: Behavior<T>>(handle: B::Container, value: T) -> bool {
    call_ensures(B::load, (&handle,), value)
}

/// Whether the strategy `B` can store `value` in `handle` and hand back
/// `previous`: a result that its `replace` can give for that handle and value.
pub open spec fn writes<T, B: Behavior<T>>(handle: B::Container, value: T, previous: T) -> bool {
    call_ensures(B::replace, (&handle, value), previous)
}

/// The predicate of a cell that may hold any value of its type.
pub struct Unconstrained;

impl<T> Predicate<T> for Unconstrained {
    open spec fn predicate(&self, v: T) -> bool {
        true
    }
}

/// The handle of the [`SingleThreaded`] strategy: a non-atomic counted pointer
/// to a cell that accepts every value.
pub type Local<T> = Rc<InvCell<T, Unconstrained>>;

/// Sharing by [`Rc`]: the cheapest strategy, for groups that stay on the
/// thread that made them.
///
/// The allocation is freed with its last handle, but what the cell holds at
/// that moment is not dropped: an `InvCell` does not run the destructor of
/// its contents. For a value that owns nothing this makes no difference. A
/// value that owns memory keeps it, unless it is taken out of the cell first
/// with [`Behavior::replace`].
pub struct SingleThreaded;

/// `Rc::ptr_eq`: whether both handles point to one allocation.
///
/// In contracts a handle is the cell it points to, and a cell is known only
/// by which cell it is. A cell is never copied and is moved into its
/// allocation once, so two handles hold the same cell exactly when they point
/// to one allocation: that is what the clause says.
#[verifier::external_body]
fn rc_ptr_eq<T>(a: &Local<T>, b: &Local<T>) -> (same: bool)
    ensures
        same == (*a == *b),
{
    Rc::ptr_eq(a, b)
}

impl<T> Behavior<T> for SingleThreaded {
    type Container = Local<T>;

    fn new(value: T) -> (handle: Self::Container) {
        Rc::new(InvCell::new(value, Ghost(Unconstrained)))
    }

    fn share(handle: &Self::Container) -> (other: Self::Container) {
        Rc::clone(handle)
    }

    fn ptr_eq(a: &Self::Container, b: &Self::Container) -> (same: bool) {
        rc_ptr_eq(a, b)
    }

    fn replace(handle: &Self::Container, value: T) -> (previous: T) {
        handle.replace(value)
    }

    fn load(handle: &Self::Container) -> (value: T) where T: Copy {
        handle.get()
    }
}

} // verus!
