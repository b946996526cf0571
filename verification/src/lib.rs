//! Mode-gated cells: shared, reference-counted storage whose contents can only
//! be reached by presenting the token of the group the storage belongs to.
//!
//! A [`SharedMode`] is the root token of one group. Borrowed shared, it opens
//! the [`SharedCell`]s of its group for reading; borrowed exclusively, through
//! [`SharedMode::as_exclusive`], it yields an [`ExclusiveMode`] that opens the
//! group's [`ExclusiveCell`]s for writing. Because the writer token is an
//! exclusive borrow of the reader token, Rust's borrowing rules keep reads and
//! writes of one group apart in time, and a run-time identity check keeps the
//! tokens of different groups apart.
//!
//! What Verus proves here is the group discipline: which token opens which
//! cell, that views and clones stay in the group and on the storage they were
//! taken from, that a guard writes to the storage its cell's views read from,
//! and that a foreign token is always turned away.
//!
//! Two things take no part in the contracts. The contents of a cell live
//! behind interior mutability: a contract names the storage that an access
//! goes to and the value it hands over, never the value that the storage then
//! holds. And a token or a storage is known only by which one it is: nothing
//! that a constructor can promise of its own result tells it from those made
//! before, so the contracts speak of tokens whose groups differ, not of
//! tokens made apart.
//!
//! The contents of a cell are not dropped with its storage; see
//! [`ExclusiveCell`].

pub mod behavior;
pub mod cell;
pub mod laws;
pub mod mode;
pub mod threadsafe;

pub use crate::behavior::Behavior;
pub use crate::behavior::SingleThreaded;
pub use crate::cell::ExclusiveCell;
pub use crate::cell::GroupMismatch;
pub use crate::cell::RefMut;
pub use crate::cell::SharedCell;
pub use crate::mode::ExclusiveMode;
pub use crate::mode::SharedMode;
pub use crate::threadsafe::ThreadSafe;
