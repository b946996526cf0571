//! The cells of a group, and the guard through which one of them is written.

use crate::behavior::Behavior;
use crate::behavior::makes;
use crate::behavior::reads;
use crate::behavior::writes;
use crate::behavior::SingleThreaded;
use crate::mode::ExclusiveMode;
use crate::mode::SharedMode;
use crate::mode::Tag;
use vstd::pervasive::unreached;
use vstd::prelude::*;

verus! {

/// The handle to the storage of a cell that holds a `T`.
pub type Storage<T, B> = <B as Behavior<T>>::Container;

/// The one error of this crate: a token was presented to a cell of another
/// group.
#[derive(Debug, Clone, Copy, PartialEq, Eq)]
pub struct GroupMismatch;

/// The writable end of a shared value.
///
/// There is one `ExclusiveCell` for each storage. It cannot be cloned, and its
/// contents can be reached only with the writer token of its group.
///
/// The storage is freed when the cell and all its views are gone. What it
/// holds then is not dropped, under either strategy of this crate: a value
/// that owns memory should be taken out with [`RefMut::replace`] before the
/// cell goes.
pub struct ExclusiveCell<T, B = SingleThreaded> where B: Behavior<()> + Behavior<T> {
    tag: Tag<B>,
    data: Storage<T, B>,
}

/// A read-only view of the storage of an [`ExclusiveCell`].
///
/// Views can be cloned freely; all of them, and the cell they were taken
/// from, share one storage, which lives as long as any of them. The contents
/// can be reached only with a shared borrow of the group's root token.
pub struct SharedCell<T, B = SingleThreaded> where B: Behavior<()> + Behavior<T> {
    tag: Tag<B>,
    data: Storage<T, B>,
}

/// Access to the contents of an [`ExclusiveCell`] for the length of a write
/// session.
///
/// The guard borrows the cell exclusively and holds the writer token that
/// opened it, so it cannot outlive either borrow. It is released by going out
/// of scope.
pub struct RefMut<'a, T, B = SingleThreaded> where B: Behavior<()> + Behavior<T> {
    cell: &'a ExclusiveCell<T, B>,
    #[allow(dead_code)]
    mode: ExclusiveMode<'a, B>,
}

impl<T, B> ExclusiveCell<T, B> where B: Behavior<()> + Behavior<T> {
    /// The group that this cell belongs to.
    pub closed spec fn group(&self) -> Tag<B> {
        self.tag
    }

    /// The storage that this cell writes to.
    pub closed spec fn storage(&self) -> Storage<T, B> {
        self.data
    }

    /// Whether `mode` is a writer token of this cell's group.
    pub open spec fn opens_for(&self, mode: ExclusiveMode<'_, B>) -> bool {
        mode.group() == self.group()
    }

    /// Puts `value` into new storage and returns the cell that writes to it,
    /// a member of the group of `mode`. The storage is what the strategy
    /// makes for `value`.
    pub fn new(value: T, mode: &SharedMode<B>) -> (cell: Self)
        ensures
            cell.group() == mode.group(),
            makes::<T, B>(value, cell.storage()),
    {
        ExclusiveCell { tag: mode.share_tag(), data: <B as Behavior<T>>::new(value) }
    }

    /// Opens the cell for writing if `mode` belongs to its group, and reports
    /// [`GroupMismatch`] if it does not. The cell itself is not changed.
    pub fn try_get_mut<'mode>(&'mode mut self, mode: ExclusiveMode<'mode, B>) -> (outcome: Result<
        RefMut<'mode, T, B>,
        GroupMismatch,
    >)
        ensures
            *final(self) == *old(self),
            outcome is Ok <==> old(self).opens_for(mode),
            outcome matches Ok(guard) ==> guard.target() == *old(self) && guard.group()
                == mode.group(),
    {
        if mode.owns(&self.tag) {
            Ok(RefMut { cell: self, mode })
        } else {
            Err(GroupMismatch)
        }
    }

    /// Opens the cell for writing.
    ///
    /// `mode` must belong to the cell's group. The identity check is made all
    /// the same, so that a caller that Verus has not seen is stopped by a panic
    /// instead of being let into a foreign group.
    pub fn get_mut<'mode>(&'mode mut self, mode: ExclusiveMode<'mode, B>) -> (guard: RefMut<
        'mode,
        T,
        B,
    >)
        requires
            old(self).opens_for(mode),
        ensures
            *final(self) == *old(self),
            guard.target() == *old(self),
            guard.group() == mode.group(),
    {
        match self.try_get_mut(mode) {
            Ok(guard) => guard,
            Err(_) => unreached(),
        }
    }

    /// Opens the cell for writing without the identity check.
    ///
    /// `mode` must belong to the cell's group, and here nothing but the
    /// caller's proof stands for it: called from code that Verus has not
    /// seen, with a foreign token, it lets that token write to this group.
    pub fn get_mut_unchecked<'mode>(
        &'mode mut self,
        mode: ExclusiveMode<'mode, B>,
    ) -> (guard: RefMut<'mode, T, B>)
        requires
            old(self).opens_for(mode),
        ensures
            *final(self) == *old(self),
            guard.target() == *old(self),
            guard.group() == mode.group(),
    {
        RefMut { cell: self, mode }
    }

    /// Returns a read-only view of this cell: a member of the same group, on
    /// the same storage.
    pub fn as_shared(&self) -> (view: SharedCell<T, B>)
        ensures
            view.is_view_of(*self),
    {
        SharedCell {
            tag: <B as Behavior<()>>::share(&self.tag),
            data: <B as Behavior<T>>::share(&self.data),
        }
    }
}

impl<T, B> SharedCell<T, B> where B: Behavior<()> + Behavior<T> {
    /// The group that this view belongs to.
    pub closed spec fn group(&self) -> Tag<B> {
        self.tag
    }

    /// The storage that this view reads from.
    pub closed spec fn storage(&self) -> Storage<T, B> {
        self.data
    }

    /// Whether this view shows `cell`: same group, same storage.
    pub open spec fn is_view_of(&self, cell: ExclusiveCell<T, B>) -> bool {
        self.group() == cell.group() && self.storage() == cell.storage()
    }

    /// Whether `mode` is the root token of this view's group.
    pub open spec fn opens_for(&self, mode: SharedMode<B>) -> bool {
        mode.group() == self.group()
    }

    /// Reads the contents if `mode` belongs to the view's group, and reports
    /// [`GroupMismatch`] if it does not. What is read is what the strategy
    /// loads from this view's own storage.
    pub fn try_get(&self, mode: &SharedMode<B>) -> (outcome: Result<T, GroupMismatch>) where T: Copy
        ensures
            outcome is Ok <==> self.opens_for(*mode),
            outcome matches Ok(value) ==> reads::<T, B>(self.storage(), value),
    {
        if mode.owns(&self.tag) {
            Ok(<B as Behavior<T>>::load(&self.data))
        } else {
            Err(GroupMismatch)
        }
    }

    /// Reads the contents: what the strategy loads from this view's own
    /// storage.
    ///
    /// `mode` must belong to the view's group. The identity check is made all
    /// the same, so that a caller that Verus has not seen is stopped by a panic
    /// instead of being let into a foreign group.
    pub fn get(&self, mode: &SharedMode<B>) -> (value: T) where T: Copy
        requires
            self.opens_for(*mode),
        ensures
            reads::<T, B>(self.storage(), value),
    {
        match self.try_get(mode) {
            Ok(value) => value,
            Err(_) => unreached(),
        }
    }

    /// Reads the contents without the identity check: what the strategy loads
    /// from this view's own storage.
    ///
    /// `mode` must belong to the view's group, and here nothing but the
    /// caller's proof stands for it.
    pub fn get_unchecked(&self, mode: &SharedMode<B>) -> (value: T) where T: Copy
        requires
            self.opens_for(*mode),
        ensures
            reads::<T, B>(self.storage(), value),
    {
        <B as Behavior<T>>::load(&self.data)
    }
}

impl<T, B> Clone for SharedCell<T, B> where B: Behavior<()> + Behavior<T> {
    /// One more view: a member of the same group, on the same storage.
    fn clone(&self) -> (view: Self)
        ensures
            view == *self,
    {
        SharedCell {
            tag: <B as Behavior<()>>::share(&self.tag),
            data: <B as Behavior<T>>::share(&self.data),
        }
    }
}

impl<'a, T, B> RefMut<'a, T, B> where B: Behavior<()> + Behavior<T> {
    /// The cell that this guard has open.
    pub closed spec fn target(&self) -> ExclusiveCell<T, B> {
        *self.cell
    }

    /// The group of the writer token that opened the cell.
    pub closed spec fn group(&self) -> Tag<B> {
        self.mode.group()
    }

    /// Copies out the contents of the cell: what the strategy loads from the
    /// storage of the cell that this guard has open.
    pub fn get(&self) -> (value: T) where T: Copy
        ensures
            reads::<T, B>(self.target().storage(), value),
    {
        <B as Behavior<T>>::load(&self.cell.data)
    }

    /// Stores `value` in the cell and drops what it held before: the
    /// strategy's `replace` is made with `value` on the storage of the cell
    /// that this guard has open. The guard stays on the same cell.
    pub fn set(&mut self, value: T)
        ensures
            *final(self) == *old(self),
            exists|previous: T| #[trigger]
                writes::<T, B>(old(self).target().storage(), value, previous),
    {
        let _previous = <B as Behavior<T>>::replace(&self.cell.data, value);
        assert(writes::<T, B>(old(self).target().storage(), value, _previous));
    }

    /// Stores `value` in the cell and hands back what it held before: the
    /// result of the strategy's `replace` with `value` on the storage of the
    /// cell that this guard has open. The guard stays on the same cell.
    pub fn replace(&mut self, value: T) -> (previous: T)
        ensures
            *final(self) == *old(self),
            writes::<T, B>(old(self).target().storage(), value, previous),
    {
        <B as Behavior<T>>::replace(&self.cell.data, value)
    }
}

} // verus!
