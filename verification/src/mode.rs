//! The two tokens of a group: the root token, and the writer token borrowed
//! from it.

use crate::behavior::makes;
use crate::behavior::Behavior;
use crate::behavior::SingleThreaded;
use crate::cell::ExclusiveCell;
use crate::threadsafe::ThreadSafe;
use vstd::prelude::*;

verus! {

/// The handle by which the members of a group know each other.
pub type Tag<B> = <B as Behavior<()>>::Container;

/// The root token of a group of cells.
///
/// A shared borrow of the token opens the group's
/// [`SharedCell`](crate::cell::SharedCell)s for reading. The token cannot be
/// cloned: whoever holds it decides, by how it is borrowed, whether the group
/// is being read or written.
pub struct SharedMode<B = SingleThreaded> where B: Behavior<()> {
    tag: Tag<B>,
}

/// The writer token of a group: an exclusive borrow of its [`SharedMode`].
///
/// It opens the group's [`ExclusiveCell`]s for writing. While one is in use
/// the root token cannot be borrowed, so nothing of the group can be read.
/// Copies of a writer token are the same borrow and interchangeable.
pub struct ExclusiveMode<'a, B = SingleThreaded>(&'a SharedMode<B>) where B: Behavior<()>;

impl<B> Clone for ExclusiveMode<'_, B> where B: Behavior<()> {
    fn clone(&self) -> (copy: Self)
        ensures
            copy == *self,
    {
        *self
    }
}

impl<B> Copy for ExclusiveMode<'_, B> where B: Behavior<()> {
}

impl<B> Default for SharedMode<B> where B: Behavior<()> {
    /// Starts a new group: its tag is what the strategy makes for the unit
    /// value.
    fn default() -> (mode: Self)
        ensures
            makes::<(), B>((), mode.group()),
    {
        SharedMode { tag: B::new(()) }
    }
}

impl SharedMode<ThreadSafe> {
    /// Starts a new group whose cells and token may be sent to other threads:
    /// its tag is what the [`ThreadSafe`] strategy makes for the unit value.
    #[must_use]
    pub fn new_threadsafe() -> (mode: Self)
        ensures
            makes::<(), ThreadSafe>((), mode.group()),
    {
        Self::default()
    }
}

impl SharedMode<SingleThreaded> {
    /// Starts a new group that stays on the current thread: its tag is what
    /// the [`SingleThreaded`] strategy makes for the unit value.
    #[must_use]
    pub fn new() -> (mode: Self)
        ensures
            makes::<(), SingleThreaded>((), mode.group()),
    {
        Self::default()
    }
}

impl<B> SharedMode<B> where B: Behavior<()> {
    /// The group that this token is the root of.
    pub closed spec fn group(&self) -> Tag<B> {
        self.tag
    }

    /// Begins a write session: borrows the token exclusively and returns the
    /// writer token of the same group. The root token itself is not changed.
    pub fn as_exclusive(&mut self) -> (writer: ExclusiveMode<'_, B>)
        ensures
            writer.group() == old(self).group(),
            *final(self) == *old(self),
    {
        ExclusiveMode(self)
    }

    /// Puts `value` into a new cell of this token's group. The cell's storage
    /// is what the strategy makes for `value`.
    pub fn new_cell<T>(&self, value: T) -> (cell: ExclusiveCell<T, B>) where B: Behavior<T>
        ensures
            cell.group() == self.group(),
            makes::<T, B>(value, cell.storage()),
    {
        ExclusiveCell::new(value, self)
    }

    /// One more handle to this group's tag.
    pub(crate) fn share_tag(&self) -> (tag: Tag<B>)
        ensures
            tag == self.group(),
    {
        B::share(&self.tag)
    }

    /// Tells whether `tag` is the tag of this token's group.
    pub(crate) fn owns(&self, tag: &Tag<B>) -> (owned: bool)
        ensures
            owned == (self.group() == *tag),
    {
        B::ptr_eq(&self.tag, tag)
    }
}

impl<'a, B> ExclusiveMode<'a, B> where B: Behavior<()> {
    /// The group that this token writes to: that of the root token it borrows.
    pub closed spec fn group(&self) -> Tag<B> {
        self.0.group()
    }

    /// Puts `value` into a new cell of this token's group. The cell's storage
    /// is what the strategy makes for `value`.
    pub fn new_cell<T>(&self, value: T) -> (cell: ExclusiveCell<T, B>) where B: Behavior<T>
        ensures
            cell.group() == self.group(),
            makes::<T, B>(value, cell.storage()),
    {
        self.0.new_cell(value)
    }

    /// Tells whether `tag` is the tag of this token's group.
    pub(crate) fn owns(&self, tag: &Tag<B>) -> (owned: bool)
        ensures
            owned == (self.group() == *tag),
    {
        self.0.owns(tag)
    }
}

} // verus!
