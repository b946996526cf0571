//! What follows from the contracts of the cells and tokens, stated once.
//!
//! Each law is about the predicates that the contracts are written in:
//! `opens_for` decides whether an access is granted or answered with
//! [`GroupMismatch`](crate::cell::GroupMismatch), and `is_view_of` is what
//! [`ExclusiveCell::as_shared`] and `clone` promise of a view.

use crate::behavior::Behavior;
use crate::cell::ExclusiveCell;
use crate::cell::RefMut;
use crate::cell::SharedCell;
use crate::mode::ExclusiveMode;
use crate::mode::SharedMode;
use vstd::prelude::*;

verus! {

/// A cell opens for every writer token borrowed from the token it was made
/// with, and so does each of its views for that token itself.
pub proof fn lemma_own_token_opens<T, B>(
    maker: SharedMode<B>,
    writer: ExclusiveMode<'_, B>,
    cell: ExclusiveCell<T, B>,
    view: SharedCell<T, B>,
) where B: Behavior<()> + Behavior<T>
    requires
        cell.group() == maker.group(),
        writer.group() == maker.group(),
        view.is_view_of(cell),
    ensures
        cell.opens_for(writer),
        view.opens_for(maker),
{
}

/// A token of one group opens nothing of another group: neither a cell for
/// writing nor a view of it for reading.
pub proof fn lemma_foreign_token_turned_away<T, B>(
    maker: SharedMode<B>,
    stranger: SharedMode<B>,
    writer: ExclusiveMode<'_, B>,
    cell: ExclusiveCell<T, B>,
    view: SharedCell<T, B>,
) where B: Behavior<()> + Behavior<T>
    requires
        maker.group() != stranger.group(),
        writer.group() == stranger.group(),
        cell.group() == maker.group(),
        view.is_view_of(cell),
    ensures
        !cell.opens_for(writer),
        !view.opens_for(stranger),
{
}

/// All views of one cell read the same storage and open for the same tokens,
/// however many there are and whether or not the cell is still there.
pub proof fn lemma_views_agree<T, B>(
    cell: ExclusiveCell<T, B>,
    first: SharedCell<T, B>,
    second: SharedCell<T, B>,
    mode: SharedMode<B>,
) where B: Behavior<()> + Behavior<T>
    requires
        first.is_view_of(cell),
        second.is_view_of(cell),
    ensures
        first.storage() == second.storage(),
        first.group() == second.group(),
        first.opens_for(mode) == second.opens_for(mode),
{
}

/// A guard writes to the very storage that every view of its cell reads from.
pub proof fn lemma_writes_meet_reads<T, B>(
    cell: ExclusiveCell<T, B>,
    guard: RefMut<'_, T, B>,
    view: SharedCell<T, B>,
) where B: Behavior<()> + Behavior<T>
    requires
        guard.target() == cell,
        view.is_view_of(cell),
    ensures
        guard.target().storage() == view.storage(),
        guard.target().group() == view.group(),
{
}

/// A view opens for a root token exactly when its cell opens for the writer
/// tokens borrowed from that root token.
pub proof fn lemma_read_and_write_open_together<T, B>(
    mode: SharedMode<B>,
    writer: ExclusiveMode<'_, B>,
    cell: ExclusiveCell<T, B>,
    view: SharedCell<T, B>,
) where B: Behavior<()> + Behavior<T>
    requires
        writer.group() == mode.group(),
        view.is_view_of(cell),
    ensures
        view.opens_for(mode) == cell.opens_for(writer),
{
}

} // verus!
