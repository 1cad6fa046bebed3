//! A cell whose value is transformed in place at most once and is then frozen.
//!
//! The cell is never empty: it is built around a value, and the one mutation
//! it admits works on that value through exclusive access instead of
//! replacing it. Until the mutation has completed, the value cannot be
//! observed through the cell; afterwards it can only be read, unless the
//! caller owns the cell exclusively.
//!
//! Nothing here synchronises: every operation that may run a mutation takes
//! the cell by `&mut`, so the rules of borrowing are what keeps a mutation
//! from overlapping a read.

use vstd::prelude::*;
use vstd::std_specs::cmp::PartialEqSpec;
use vstd::std_specs::convert::FromSpec;
use crate::mutation::runs_on;
use crate::mutation::verdict;
use crate::render::render_tuple;
use crate::render::shown_for;
use crate::render::shown_text;
use crate::render::tuple_rendering;

verus! {

/// What a cell is, as a mathematical value: the contents of its slot and
/// whether the one mutation has completed.
pub ghost struct CellState<T> {
    /// The slot's contents, observable or not.
    pub value: T,
    /// Whether a mutation has run to completion against the slot.
    pub mutated: bool,
}

impl<T> CellState<T> {
    /// The state of a cell that was just built around `value`.
    pub open spec fn untouched(value: T) -> Self {
        CellState { value, mutated: false }
    }

    /// What the cell lets a reader observe: the value once it is frozen,
    /// nothing before.
    pub open spec fn frozen(self) -> Option<T> {
        if self.mutated {
            Some(self.value)
        } else {
            None
        }
    }

    /// The state after a request to mutate whose closure, if it ran, left
    /// `result` in the slot. A frozen cell ignores the request.
    pub open spec fn mutate(self, result: T) -> Self {
        if self.mutated {
            self
        } else {
            CellState { value: result, mutated: true }
        }
    }

    /// The state after a fallible request whose closure, if it ran, failed
    /// and left `partial` in the slot. The latch does not move, so a later
    /// request runs its closure on `partial`.
    pub open spec fn fail(self, partial: T) -> Self {
        if self.mutated {
            self
        } else {
            CellState { value: partial, mutated: false }
        }
    }

    /// The state after one request to mutate for each of `results`, in
    /// their order.
    pub open spec fn mutate_each(self, results: Seq<T>) -> Self
        decreases results.len(),
    {
        if results.len() == 0 {
            self
        } else {
            self.mutate(results.first()).mutate_each(results.drop_first())
        }
    }
}

/// The name under which a cell shows itself.
pub const CELL_NAME: &'static str = "InPlaceOnceCell";

/// A cell that can only be mutated once.
pub struct InPlaceOnceCell<T> {
    value: T,
    is_mutated: bool,
}

impl<T> View for InPlaceOnceCell<T> {
    type V = CellState<T>;

    closed spec fn view(&self) -> CellState<T> {
        CellState { value: self.value, mutated: self.is_mutated }
    }
}

impl<T> InPlaceOnceCell<T> {
    /// Creates a new cell that has not been mutated.
    #[must_use]
    pub fn new(value: T) -> (cell: Self)
        ensures
            cell@ == CellState::untouched(value),
    {
        Self { value, is_mutated: false }
    }

    /// Whether the one mutation has completed.
    #[must_use]
    pub fn is_mutated(&self) -> (mutated: bool)
        ensures
            mutated == self@.mutated,
    {
        self.is_mutated
    }

    /// Reads the frozen value. The latch must say that the cell is mutated.
    fn get_unchecked(&self) -> (frozen: &T)
        requires
            self@.mutated,
        ensures
            *frozen == self@.value,
    {
        &self.value
    }

    /// Hands out the frozen value for writing. The latch must say that the
    /// cell is mutated.
    fn get_mut_unchecked(&mut self) -> (slot: &mut T)
        requires
            old(self)@.mutated,
        ensures
            *slot == old(self)@.value,
            final(self)@ == (CellState { value: *final(slot), mutated: true }),
    {
        &mut self.value
    }

    /// Gets the reference to the underlying value.
    ///
    /// Returns `None` if the cell is not mutated.
    pub fn get(&self) -> (frozen: Option<&T>)
        ensures
            match frozen {
                Some(value) => self@.frozen() == Some(*value),
                None => self@.frozen() is None,
            },
    {
        if self.is_mutated() {
            Some(self.get_unchecked())
        } else {
            None
        }
    }

    /// Gets a mutable reference to the underlying value.
    ///
    /// Returns `None` if the cell is not mutated, and leaves it as it was.
    /// This never runs a mutation; what the caller writes through the
    /// reference becomes the frozen value.
    pub fn get_mut(&mut self) -> (slot: Option<&mut T>)
        ensures
            match slot {
                Some(value) => {
                    &&& old(self)@.frozen() == Some(*value)
                    &&& final(self)@ == (CellState { value: *final(value), mutated: true })
                },
                None => {
                    &&& old(self)@.frozen() is None
                    &&& final(self)@ == old(self)@
                },
            },
    {
        if self.is_mutated() {
            Some(&mut self.value)
        } else {
            None
        }
    }

    /// Gets the contents of the cell, mutating it with `f` if the cell was
    /// never mutated.
    ///
    /// A frozen cell is returned as it is and `f` is dropped without being
    /// called, so nothing is asked of `f` then. Otherwise `f` runs once on
    /// the slot, and what it leaves there is frozen.
    pub fn get_or_mutate<F>(&mut self, f: F) -> (frozen: &T) where F: FnOnce(&mut T)
        requires
            !old(self)@.mutated ==> runs_on(f, old(self)@.value),
        ensures
            old(self)@.mutated ==> final(self)@ == old(self)@,
            !old(self)@.mutated ==> exists|slot: &mut T|
                {
                    &&& *slot == old(self)@.value
                    &&& #[trigger] call_ensures(f, (slot,), ())
                    &&& final(self)@ == old(self)@.mutate(*final(slot))
                },
            final(self)@.frozen() == Some(*frozen),
    {
        if !self.is_mutated() {
            f(&mut self.value);
            self.is_mutated = true;
        }
        self.get_unchecked()
    }

    /// Like [`get_or_mutate`](Self::get_or_mutate), for a caller that owns
    /// the cell exclusively: the frozen value is handed out for writing.
    pub fn get_mut_or_mutate<F>(&mut self, f: F) -> (value: &mut T) where F: FnOnce(&mut T)
        requires
            !old(self)@.mutated ==> runs_on(f, old(self)@.value),
        ensures
            old(self)@.mutated ==> *value == old(self)@.value,
            !old(self)@.mutated ==> exists|slot: &mut T|
                {
                    &&& *slot == old(self)@.value
                    &&& #[trigger] call_ensures(f, (slot,), ())
                    &&& *value == *final(slot)
                },
            final(self)@ == (CellState { value: *final(value), mutated: true }),
    {
        if !self.is_mutated() {
            f(&mut self.value);
            self.is_mutated = true;
        }
        self.get_mut_unchecked()
    }

    /// Gets the contents of the cell, mutating it with `f` if the cell was
    /// never mutated.
    ///
    /// Returns the error of `f` if the cell was not mutated and `f` failed.
    /// The latch then stays where it was and the slot keeps whatever `f` had
    /// written before it gave up, so a later call runs its closure on that.
    pub fn get_or_try_mutate<F, E>(&mut self, f: F) -> (res: Result<&T, E>) where
        F: FnOnce(&mut T) -> Result<(), E>,

        requires
            !old(self)@.mutated ==> runs_on(f, old(self)@.value),
        ensures
            old(self)@.mutated ==> res is Ok && final(self)@ == old(self)@,
            !old(self)@.mutated ==> exists|slot: &mut T|
                {
                    &&& *slot == old(self)@.value
                    &&& #[trigger] call_ensures(f, (slot,), verdict(res))
                    &&& final(self)@ == if res is Ok {
                        old(self)@.mutate(*final(slot))
                    } else {
                        old(self)@.fail(*final(slot))
                    }
                },
            res matches Ok(frozen) ==> final(self)@.frozen() == Some(*frozen),
    {
        if self.is_mutated() {
            return Ok(self.get_unchecked());
        }
        self.try_mutate(f)?;
        Ok(self.get_unchecked())
    }

    /// Gets the mutable contents of the cell, mutating it with `f` if the
    /// cell was never mutated.
    ///
    /// Returns the error of `f` if the cell was not mutated and `f` failed,
    /// with the cell left as [`get_or_try_mutate`](Self::get_or_try_mutate)
    /// leaves it.
    pub fn get_mut_or_try_mutate<F, E>(&mut self, f: F) -> (res: Result<&mut T, E>) where
        F: FnOnce(&mut T) -> Result<(), E>,

        requires
            !old(self)@.mutated ==> runs_on(f, old(self)@.value),
        ensures
            old(self)@.mutated ==> res is Ok,
            match res {
                Ok(value) => {
                    &&& old(self)@.mutated ==> *value == old(self)@.value
                    &&& !old(self)@.mutated ==> exists|slot: &mut T|
                        {
                            &&& *slot == old(self)@.value
                            &&& #[trigger] call_ensures(f, (slot,), Ok(()))
                            &&& *value == *final(slot)
                        }
                    &&& final(self)@ == (CellState { value: *final(value), mutated: true })
                },
                Err(_) => exists|slot: &mut T|
                    {
                        &&& *slot == old(self)@.value
                        &&& #[trigger] call_ensures(f, (slot,), verdict(res))
                        &&& final(self)@ == old(self)@.fail(*final(slot))
                    },
            },
    {
        if self.is_mutated() {
            return Ok(self.get_mut_unchecked());
        }
        self.try_mutate(f)?;
        Ok(self.get_mut_unchecked())
    }

    /// Runs `f` on the slot of a cell that was never mutated, and sets the
    /// latch if `f` succeeded.
    fn try_mutate<F, E>(&mut self, f: F) -> (outcome: Result<(), E>) where
        F: FnOnce(&mut T) -> Result<(), E>,

        requires
            !old(self)@.mutated,
            runs_on(f, old(self)@.value),
        ensures
            exists|slot: &mut T|
                {
                    &&& *slot == old(self)@.value
                    &&& #[trigger] call_ensures(f, (slot,), outcome)
                    &&& final(self)@ == (CellState { value: *final(slot), mutated: outcome is Ok })
                },
    {
        f(&mut self.value)?;
        self.is_mutated = true;
        Ok(())
    }

    /// Consumes the cell, returning the wrapped value. Note that this occurs
    /// even when the cell was never mutated.
    pub fn into_inner(self) -> (value: T)
        ensures
            value == self@.value,
    {
        self.value
    }

    /// The cell as a debugging tool shows it: its name around the text
    /// that `T`'s `Debug` impl writes for the frozen value, or around
    /// `<untouched>` while nothing is frozen. The contents of a cell that
    /// was never mutated are not shown.
    pub fn debug_string(&self) -> (text: String) where T: core::fmt::Debug
        ensures
            !self@.mutated ==> text@ == tuple_rendering(CELL_NAME@, None),
            self@.mutated ==> exists|shown: Seq<char>|
                {
                    &&& #[trigger] shown_for(self@.value, shown)
                    &&& text@ == tuple_rendering(CELL_NAME@, Some(shown))
                },
    {
        match self.get() {
            Some(value) => render_tuple(CELL_NAME, Some(shown_text(value))),
            None => render_tuple(CELL_NAME, None),
        }
    }
}

impl<T: Default> Default for InPlaceOnceCell<T> {
    /// A cell that has not been mutated, around the default value of `T`.
    fn default() -> (cell: Self)
        ensures
            !cell@.mutated,
            call_ensures(T::default, (), cell@.value),
    {
        Self::new(T::default())
    }
}

impl<T: PartialEq> PartialEq for InPlaceOnceCell<T> {
    /// Compares what the two cells let a reader observe. The contents of a
    /// cell that was never mutated take no part.
    fn eq(&self, other: &Self) -> (equal: bool)
        ensures
            !self@.mutated && !other@.mutated ==> equal,
            self@.mutated != other@.mutated ==> !equal,
            self@.mutated && other@.mutated ==> call_ensures(
                T::eq,
                (&self@.value, &other@.value),
                equal,
            ),
    {
        match (self.get(), other.get()) {
            (None, None) => true,
            (Some(left), Some(right)) => left.eq(right),
            _ => false,
        }
    }
}

impl<T: PartialEq> vstd::std_specs::cmp::PartialEqSpecImpl for InPlaceOnceCell<T> {
    open spec fn obeys_eq_spec() -> bool {
        T::obeys_eq_spec()
    }

    open spec fn eq_spec(&self, other: &Self) -> bool {
        match (self@.frozen(), other@.frozen()) {
            (None, None) => true,
            (Some(left), Some(right)) => left.eq_spec(&right),
            _ => false,
        }
    }
}

impl<T: Eq> Eq for InPlaceOnceCell<T> {

}

impl<T> From<T> for InPlaceOnceCell<T> {
    /// Creates a new cell containing `value`. This new cell is not yet
    /// mutated.
    fn from(value: T) -> (cell: Self)
        ensures
            cell@ == CellState::untouched(value),
    {
        Self::new(value)
    }
}

impl<T> vstd::std_specs::convert::FromSpecImpl<T> for InPlaceOnceCell<T> {
    open spec fn obeys_from_spec() -> bool {
        true
    }

    closed spec fn from_spec(value: T) -> Self {
        InPlaceOnceCell { value, is_mutated: false }
    }
}

/// The first mutation wins. A new cell that is asked for its value with a
/// closure that turns every `v` into `mutation(v)` holds and returns
/// `mutation(initial)`. A second request then returns that same value and
/// leaves the cell as it is, whatever its closure would have done: nothing is
/// asked of that closure, since it is never called.
pub proof fn law_first_mutation_wins<T, F: FnOnce(&mut T), G: FnOnce(&mut T)>(
    initial: T,
    mutation: spec_fn(T) -> T,
    f: F,
    g: G,
    first: &mut InPlaceOnceCell<T>,
    first_seen: &T,
    second: &mut InPlaceOnceCell<T>,
    second_seen: &T,
)
    requires
        forall|slot: &mut T| #[trigger] call_ensures(f, (slot,), ()) ==> *final(slot) == mutation(*slot),
        first@ == CellState::untouched(initial),
        call_ensures(InPlaceOnceCell::<T>::get_or_mutate::<F>, (first, f), first_seen),
        *second == *final(first),
        call_ensures(InPlaceOnceCell::<T>::get_or_mutate::<G>, (second, g), second_seen),
    ensures
        *first_seen == mutation(initial),
        final(first)@ == (CellState { value: mutation(initial), mutated: true }),
        *second_seen == mutation(initial),
        *final(second) == *final(first),
{
}

/// Asking a frozen cell again changes nothing: the call returns the frozen
/// value and leaves the cell as it was, whatever closure it was given.
pub proof fn law_frozen_cell_ignores_mutation<T, G: FnOnce(&mut T)>(
    cell: &mut InPlaceOnceCell<T>,
    g: G,
    seen: &T,
)
    requires
        cell@.mutated,
        call_ensures(InPlaceOnceCell::<T>::get_or_mutate::<G>, (cell, g), seen),
    ensures
        *seen == old(cell)@.value,
        *final(cell) == *old(cell),
{
}

/// However many requests follow the first, the value that the first one
/// froze stays: the state after all of them is the state after the first.
pub proof fn law_requests_are_idempotent<T>(state: CellState<T>, results: Seq<T>)
    requires
        results.len() > 0,
    ensures
        state.mutate_each(results) == state.mutate(results.first()),
        state.mutate_each(results).frozen() == Some(
            if state.mutated {
                state.value
            } else {
                results.first()
            },
        ),
    decreases results.len(),
{
    let next = state.mutate(results.first());
    let rest = results.drop_first();
    if rest.len() > 0 {
        law_requests_are_idempotent(next, rest);
    } else {
        assert(next.mutate_each(rest) == next);
    }
}

/// Equality looks at what can be observed and at nothing else: two cells
/// are equal exactly if their frozen values are, so two cells that were
/// never mutated are equal whatever they were built around, and such a cell
/// differs from every mutated one.
pub proof fn law_equality_reads_frozen_values<T: PartialEq>(
    left: InPlaceOnceCell<T>,
    right: InPlaceOnceCell<T>,
)
    ensures
        left.eq_spec(&right) == PartialEqSpec::eq_spec(&left@.frozen(), &right@.frozen()),
        !left@.mutated && !right@.mutated ==> left.eq_spec(&right),
        left@.mutated != right@.mutated ==> !left.eq_spec(&right),
{
}

/// Converting a value into a cell is building a new cell around it.
pub proof fn law_conversion_builds_untouched<T>(value: T)
    ensures
        InPlaceOnceCell::<T>::from_spec(value)@ == CellState::untouched(value),
{
}

} // verus!
