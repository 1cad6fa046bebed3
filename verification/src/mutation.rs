//! How the contracts speak of the closure that mutates a container.
//!
//! A mutation is any `FnOnce(&mut T)`, with or without a result. The
//! containers promise nothing of their own about what it does: their
//! contracts hand on the closure's own, through `call_requires` and
//! `call_ensures` on the slot it is given.

use vstd::prelude::*;

verus! {

/// Whether `f` may be called on a slot that holds `value`, whatever the
/// slot holds afterwards.
pub open spec fn runs_on<T, R, F: FnOnce(&mut T) -> R>(f: F, value: T) -> bool {
    forall|slot: &mut T| *slot == value ==> call_requires(f, (slot,))
}

/// What a fallible mutation reported, read off the result of the operation
/// that ran it.
pub open spec fn verdict<V, E>(res: Result<V, E>) -> Result<(), E> {
    match res {
        Ok(_) => Ok(()),
        Err(e) => Err(e),
    }
}

} // verus!
