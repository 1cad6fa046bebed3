//! Containers that hold a value from the start and let it be transformed in
//! place exactly once, after which it is frozen for shared reading.
//!
//! Unlike a lazily initialised cell, such a container is never empty: the
//! one mutation works on the value that is already there, so whatever the
//! value owns is kept across it.
//!
//! [`InPlaceOnceCell`] is the plain container. [`InPlaceOnceLock`] adds the
//! four-state [`Latch`](latch::Latch) by which callers that share a
//! container elect the one whose mutation runs, and the poisoning that
//! follows a mutation that never returned.

pub mod cell;
pub mod latch;
pub mod lock;
pub mod mutation;
pub mod render;

pub use cell::InPlaceOnceCell;
pub use lock::InPlaceOnceLock;
