//! The container that goes with a [`Latch`]: a value that is transformed in
//! place at most once, with an election that picks the one caller whose
//! mutation runs and with poisoning where that mutation never returns.
//!
//! Every operation here works on a lock that the caller holds exclusively.
//! `get_or_mutate` and `get_or_try_mutate` still go through the election,
//! step by step as a caller among many would: they are admitted by the
//! latch, open the election, run the closure and report its end. An
//! election that such a call left open was abandoned by a panic, since
//! nobody else can be running it; the lock counts as poisoned from then on.
//! The `get_mut` family and `into_inner` go past the latch's election, as
//! exclusive ownership allows.

use vstd::prelude::*;
use vstd::pervasive::unreached;
use vstd::std_specs::cmp::PartialEqSpec;
use vstd::std_specs::convert::FromSpec;
use crate::latch::Admission;
use crate::latch::Event;
use crate::latch::Latch;
use crate::latch::lone_election;
use crate::latch::Outcome;
use crate::mutation::runs_on;
use crate::mutation::verdict;
use crate::render::render_tuple;
use crate::render::shown_for;
use crate::render::shown_text;
use crate::render::tuple_rendering;

verus! {

/// What a lock is, as a mathematical value: the contents of its slot and
/// its latch.
pub ghost struct LockState<T> {
    /// The slot's contents, observable or not.
    pub value: T,
    /// Where the one-time mutation stands.
    pub latch: Latch,
}

impl<T> LockState<T> {
    /// The state of a lock that was just built around `value`.
    pub open spec fn untouched(value: T) -> Self {
        LockState { value, latch: Latch::Unmutated }
    }

    /// What the lock lets a reader observe: the value once it is frozen,
    /// nothing before.
    pub open spec fn frozen(self) -> Option<T> {
        if self.latch is Mutated {
            Some(self.value)
        } else {
            None
        }
    }

    /// Whether an elected mutation never returned: the latch is poisoned,
    /// or its election is open. This is wider than the latch's own
    /// `is_poisoned`, which leaves an open election out: seen by an
    /// exclusive owner, an election that is still open is one that a panic
    /// abandoned, since no other caller can be running it.
    pub open spec fn poisoned(self) -> bool {
        self.latch is Poisoned || self.latch is Electing
    }

    /// The state after a request to mutate whose closure, if it ran, left
    /// `result` in the slot. Only an unmutated lock runs it.
    pub open spec fn mutate(self, result: T) -> Self {
        if self.latch is Unmutated {
            LockState { value: result, latch: Latch::Mutated }
        } else {
            self
        }
    }

    /// The state after a fallible request whose closure, if it ran, failed
    /// and left `partial` in the slot. The latch is back where it was, so a
    /// later request runs its closure on `partial`.
    pub open spec fn fail(self, partial: T) -> Self {
        if self.latch is Unmutated {
            LockState { value: partial, latch: Latch::Unmutated }
        } else {
            self
        }
    }
}

/// The name under which a lock shows itself.
pub const LOCK_NAME: &'static str = "InPlaceOnceLock";

/// A value that can only be mutated once, with the election and poisoning
/// that sharing it between callers takes.
pub struct InPlaceOnceLock<T> {
    value: T,
    latch: Latch,
}

impl<T> View for InPlaceOnceLock<T> {
    type V = LockState<T>;

    closed spec fn view(&self) -> LockState<T> {
        LockState { value: self.value, latch: self.latch }
    }
}

impl<T> InPlaceOnceLock<T> {
    /// Creates a new lock that has not been mutated.
    #[must_use]
    pub fn new(value: T) -> (lock: InPlaceOnceLock<T>)
        ensures
            lock@ == LockState::untouched(value),
    {
        InPlaceOnceLock { value, latch: Latch::new() }
    }

    /// Where the one-time mutation stands.
    #[must_use]
    pub fn latch(&self) -> (latch: Latch)
        ensures
            latch == self@.latch,
    {
        self.latch
    }

    /// Whether an elected mutation never returned, so that no mutation may
    /// be asked of this lock any more.
    #[must_use]
    pub fn is_poisoned(&self) -> (poisoned: bool)
        ensures
            poisoned == self@.poisoned(),
    {
        match self.latch {
            Latch::Poisoned | Latch::Electing => true,
            Latch::Unmutated | Latch::Mutated => false,
        }
    }

    /// Gets the reference to the underlying value.
    ///
    /// Returns `None` unless a mutation has completed: also while one is
    /// running, and on a poisoned lock.
    pub fn get(&self) -> (frozen: Option<&T>)
        ensures
            match frozen {
                Some(value) => self@.frozen() == Some(*value),
                None => self@.frozen() is None,
            },
    {
        if self.latch.is_frozen() {
            Some(&self.value)
        } else {
            None
        }
    }

    /// Gets a mutable reference to the underlying value.
    ///
    /// Returns `None` unless a mutation has completed, and leaves the lock
    /// as it was. This never runs a mutation; what the caller writes through
    /// the reference becomes the frozen value.
    pub fn get_mut(&mut self) -> (slot: Option<&mut T>)
        ensures
            match slot {
                Some(value) => {
                    &&& old(self)@.frozen() == Some(*value)
                    &&& final(self)@ == (LockState { value: *final(value), latch: Latch::Mutated })
                },
                None => {
                    &&& old(self)@.frozen() is None
                    &&& final(self)@ == old(self)@
                },
            },
    {
        if self.latch.is_frozen() {
            Some(&mut self.value)
        } else {
            None
        }
    }

    /// Gets the contents of the lock, mutating it with `f` if the lock was
    /// never mutated.
    ///
    /// A frozen lock is returned as it is and `f` is dropped without being
    /// called. Otherwise this caller wins the election, `f` runs once on the
    /// slot, and what it leaves there is frozen. A poisoned lock admits no
    /// mutation.
    pub fn get_or_mutate<F>(&mut self, f: F) -> (frozen: &T) where F: FnOnce(&mut T)
        requires
            !old(self)@.poisoned(),
            old(self)@.latch is Unmutated ==> runs_on(f, old(self)@.value),
        ensures
            old(self)@.latch is Mutated ==> final(self)@ == old(self)@,
            old(self)@.latch is Unmutated ==> exists|slot: &mut T|
                {
                    &&& *slot == old(self)@.value
                    &&& #[trigger] call_ensures(f, (slot,), ())
                    &&& final(self)@ == old(self)@.mutate(*final(slot))
                },
            final(self)@.frozen() == Some(*frozen),
    {
        let (opened, admission) = self.latch.arrive();
        match admission {
            Admission::Frozen => &self.value,
            Admission::Elected => {
                self.latch = opened;
                f(&mut self.value);
                self.latch = self.latch.resolve(Outcome::Completed);
                &self.value
            },
            Admission::Wait | Admission::Poisoned => unreached(),
        }
    }

    /// Like [`get_or_mutate`](Self::get_or_mutate), for an owner that has
    /// no use for the election: the latch goes from unmutated to mutated in
    /// one step, and the frozen value is handed out for writing.
    pub fn get_mut_or_mutate<F>(&mut self, f: F) -> (value: &mut T) where F: FnOnce(&mut T)
        requires
            !old(self)@.poisoned(),
            old(self)@.latch is Unmutated ==> runs_on(f, old(self)@.value),
        ensures
            old(self)@.latch is Mutated ==> *value == old(self)@.value,
            old(self)@.latch is Unmutated ==> exists|slot: &mut T|
                {
                    &&& *slot == old(self)@.value
                    &&& #[trigger] call_ensures(f, (slot,), ())
                    &&& *value == *final(slot)
                },
            final(self)@ == (LockState { value: *final(value), latch: Latch::Mutated }),
    {
        match self.latch {
            Latch::Mutated => &mut self.value,
            Latch::Unmutated => {
                f(&mut self.value);
                self.latch = Latch::Mutated;
                &mut self.value
            },
            Latch::Electing | Latch::Poisoned => unreached(),
        }
    }

    /// Gets the contents of the lock, mutating it with `f` if the lock was
    /// never mutated.
    ///
    /// Returns the error of `f` if the lock was not mutated and `f` failed.
    /// Such an error closes the election without poisoning: the latch is
    /// unmutated again and the slot keeps whatever `f` had written before it
    /// gave up, so a later call runs its closure on that.
    pub fn get_or_try_mutate<F, E>(&mut self, f: F) -> (res: Result<&T, E>) where
        F: FnOnce(&mut T) -> Result<(), E>,

        requires
            !old(self)@.poisoned(),
            old(self)@.latch is Unmutated ==> runs_on(f, old(self)@.value),
        ensures
            old(self)@.latch is Mutated ==> res is Ok && final(self)@ == old(self)@,
            old(self)@.latch is Unmutated ==> exists|slot: &mut T|
                {
                    &&& *slot == old(self)@.value
                    &&& #[trigger] call_ensures(f, (slot,), verdict(res))
                    &&& final(self)@ == if res is Ok {
                        old(self)@.mutate(*final(slot))
                    } else {
                        old(self)@.fail(*final(slot))
                    }
                },
            res matches Ok(frozen) ==> final(self)@.frozen() == Some(*frozen),
    {
        let (opened, admission) = self.latch.arrive();
        match admission {
            Admission::Frozen => Ok(&self.value),
            Admission::Elected => {
                self.latch = opened;
                let outcome = f(&mut self.value);
                match outcome {
                    Ok(done) => {
                        // There is one unit value: what `f` returned is the
                        // `Ok(())` that the contract speaks of.
                        assert(done == ());
                        self.latch = self.latch.resolve(Outcome::Completed);
                        Ok(&self.value)
                    },
                    Err(e) => {
                        self.latch = self.latch.resolve(Outcome::Failed);
                        Err(e)
                    },
                }
            },
            Admission::Wait | Admission::Poisoned => unreached(),
        }
    }

    /// Gets the mutable contents of the lock, mutating it with `f` if the
    /// lock was never mutated.
    ///
    /// Returns the error of `f` if the lock was not mutated and `f` failed,
    /// with the lock left as [`get_or_try_mutate`](Self::get_or_try_mutate)
    /// leaves it. The election is passed by.
    pub fn get_mut_or_try_mutate<F, E>(&mut self, f: F) -> (res: Result<&mut T, E>) where
        F: FnOnce(&mut T) -> Result<(), E>,

        requires
            !old(self)@.poisoned(),
            old(self)@.latch is Unmutated ==> runs_on(f, old(self)@.value),
        ensures
            old(self)@.latch is Mutated ==> res is Ok,
            match res {
                Ok(value) => {
                    &&& old(self)@.latch is Mutated ==> *value == old(self)@.value
                    &&& old(self)@.latch is Unmutated ==> exists|slot: &mut T|
                        {
                            &&& *slot == old(self)@.value
                            &&& #[trigger] call_ensures(f, (slot,), Ok(()))
                            &&& *value == *final(slot)
                        }
                    &&& final(self)@ == (LockState { value: *final(value), latch: Latch::Mutated })
                },
                Err(_) => exists|slot: &mut T|
                    {
                        &&& *slot == old(self)@.value
                        &&& #[trigger] call_ensures(f, (slot,), verdict(res))
                        &&& final(self)@ == old(self)@.fail(*final(slot))
                    },
            },
    {
        match self.latch {
            Latch::Mutated => Ok(&mut self.value),
            Latch::Unmutated => {
                let outcome = f(&mut self.value);
                match outcome {
                    Ok(done) => {
                        // There is one unit value: what `f` returned is the
                        // `Ok(())` that the contract speaks of.
                        assert(done == ());
                        self.latch = Latch::Mutated;
                        Ok(&mut self.value)
                    },
                    Err(e) => Err(e),
                }
            },
            Latch::Electing | Latch::Poisoned => unreached(),
        }
    }

    /// Consumes the lock, returning the wrapped value, whatever the latch
    /// says: mutated or not, poisoned or not.
    pub fn into_inner(self) -> (value: T)
        ensures
            value == self@.value,
    {
        self.value
    }

    /// The lock as a debugging tool shows it: its name around the text
    /// that `T`'s `Debug` impl writes for the frozen value, or around
    /// `<untouched>` while nothing is frozen. The contents of a lock whose
    /// value is not frozen are not shown.
    pub fn debug_string(&self) -> (text: String) where T: core::fmt::Debug
        ensures
            self@.frozen() is None ==> text@ == tuple_rendering(LOCK_NAME@, None),
            self@.frozen() is Some ==> exists|shown: Seq<char>|
                {
                    &&& #[trigger] shown_for(self@.value, shown)
                    &&& text@ == tuple_rendering(LOCK_NAME@, Some(shown))
                },
    {
        match self.get() {
            Some(value) => render_tuple(LOCK_NAME, Some(shown_text(value))),
            None => render_tuple(LOCK_NAME, None),
        }
    }
}

impl<T: Default> Default for InPlaceOnceLock<T> {
    /// A lock that has not been mutated, around the default value of `T`.
    fn default() -> (lock: Self)
        ensures
            lock@.latch is Unmutated,
            call_ensures(T::default, (), lock@.value),
    {
        Self::new(T::default())
    }
}

impl<T: PartialEq> PartialEq for InPlaceOnceLock<T> {
    /// Compares what the two locks let a reader observe. The contents of a
    /// lock whose value is not frozen take no part.
    fn eq(&self, other: &Self) -> (equal: bool)
        ensures
            self@.frozen() is None && other@.frozen() is None ==> equal,
            self@.frozen() is None != other@.frozen() is None ==> !equal,
            self@.frozen() is Some && other@.frozen() is Some ==> call_ensures(
                T::eq,
                (&self@.value, &other@.value),
                equal,
            ),
    {
        match (self.get(), other.get()) {
            (None, None) => true,
            (Some(left), Some(right)) => left.eq(right),
            _ => false,
        }
    }
}

impl<T: PartialEq> vstd::std_specs::cmp::PartialEqSpecImpl for InPlaceOnceLock<T> {
    open spec fn obeys_eq_spec() -> bool {
        T::obeys_eq_spec()
    }

    open spec fn eq_spec(&self, other: &Self) -> bool {
        match (self@.frozen(), other@.frozen()) {
            (None, None) => true,
            (Some(left), Some(right)) => left.eq_spec(&right),
            _ => false,
        }
    }
}

impl<T: Eq> Eq for InPlaceOnceLock<T> {

}

impl<T> From<T> for InPlaceOnceLock<T> {
    /// Creates a new lock containing `value`. This new lock is not yet
    /// mutated.
    fn from(value: T) -> (lock: Self)
        ensures
            lock@ == LockState::untouched(value),
    {
        Self::new(value)
    }
}

impl<T> vstd::std_specs::convert::FromSpecImpl<T> for InPlaceOnceLock<T> {
    open spec fn obeys_from_spec() -> bool {
        true
    }

    closed spec fn from_spec(value: T) -> Self {
        InPlaceOnceLock { value, latch: Latch::Unmutated }
    }
}

/// The first mutation wins. A new lock that is asked for its value with a
/// closure that turns every `v` into `mutation(v)` holds and returns
/// `mutation(initial)`. A second request then returns that same value and
/// leaves the lock as it is, whatever its closure would have done: nothing is
/// asked of that closure, since it is never called.
pub proof fn law_first_mutation_wins<T, F: FnOnce(&mut T), G: FnOnce(&mut T)>(
    initial: T,
    mutation: spec_fn(T) -> T,
    f: F,
    g: G,
    first: &mut InPlaceOnceLock<T>,
    first_seen: &T,
    second: &mut InPlaceOnceLock<T>,
    second_seen: &T,
)
    requires
        forall|slot: &mut T| #[trigger] call_ensures(f, (slot,), ()) ==> *final(slot) == mutation(*slot),
        first@ == LockState::untouched(initial),
        call_ensures(InPlaceOnceLock::<T>::get_or_mutate::<F>, (first, f), first_seen),
        *second == *final(first),
        call_ensures(InPlaceOnceLock::<T>::get_or_mutate::<G>, (second, g), second_seen),
    ensures
        *first_seen == mutation(initial),
        final(first)@ == (LockState { value: mutation(initial), latch: Latch::Mutated }),
        *second_seen == mutation(initial),
        *final(second) == *final(first),
{
}

/// Asking a frozen lock again changes nothing: the call returns the frozen
/// value and leaves the lock as it was, whatever closure it was given.
pub proof fn law_frozen_lock_ignores_mutation<T, G: FnOnce(&mut T)>(
    lock: &mut InPlaceOnceLock<T>,
    g: G,
    seen: &T,
)
    requires
        lock@.latch is Mutated,
        call_ensures(InPlaceOnceLock::<T>::get_or_mutate::<G>, (lock, g), seen),
    ensures
        *seen == old(lock)@.value,
        *final(lock) == *old(lock),
{
}

/// A request on a lock that is held exclusively is one election that
/// nobody contends: it moves the latch as an arrival does that is followed
/// at once by the report of how the mutation ended, and the mutation takes
/// effect exactly where the lock was unmutated and the closure completed.
/// So what holds of every path of a latch holds of every sequence of such
/// requests.
pub proof fn law_requests_follow_the_latch<T>(state: LockState<T>, left: T)
    requires
        !state.poisoned(),
    ensures
        state.mutate(left).latch == state.latch.run(lone_election(Outcome::Completed)),
        state.fail(left).latch == state.latch.run(lone_election(Outcome::Failed)),
        state.latch.completions(lone_election(Outcome::Completed)) == (if state.latch is Unmutated {
            1nat
        } else {
            0nat
        }),
        state.latch.completions(lone_election(Outcome::Failed)) == 0,
{
    let completed = lone_election(Outcome::Completed);
    let failed = lone_election(Outcome::Failed);
    reveal_with_fuel(Latch::run, 3);
    reveal_with_fuel(Latch::completions, 3);
    assert(completed.drop_first() =~= seq![Event::Resolution(Outcome::Completed)]);
    assert(completed.drop_first().drop_first() =~= Seq::<Event>::empty());
    assert(failed.drop_first() =~= seq![Event::Resolution(Outcome::Failed)]);
    assert(failed.drop_first().drop_first() =~= Seq::<Event>::empty());
}

/// Equality looks at what can be observed and at nothing else: two locks
/// are equal exactly if their frozen values are, so two locks that hold no
/// frozen value are equal whatever they were built around, and such a lock
/// differs from every mutated one.
pub proof fn law_equality_reads_frozen_values<T: PartialEq>(
    left: InPlaceOnceLock<T>,
    right: InPlaceOnceLock<T>,
)
    ensures
        left.eq_spec(&right) == PartialEqSpec::eq_spec(&left@.frozen(), &right@.frozen()),
        left@.frozen() is None && right@.frozen() is None ==> left.eq_spec(&right),
        left@.frozen() is None != right@.frozen() is None ==> !left.eq_spec(&right),
{
}

/// Converting a value into a lock is building a new lock around it.
pub proof fn law_conversion_builds_untouched<T>(value: T)
    ensures
        InPlaceOnceLock::<T>::from_spec(value)@ == LockState::untouched(value),
{
}

} // verus!
