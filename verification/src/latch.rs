//! The latch of the shared container: a four-state record of where the
//! one-time mutation stands, and the rules by which callers move it.
//!
//! The rules are plain functions from a state and an event to the next
//! state and an instruction. Whoever shares a container between threads
//! keeps one `Latch` behind mutual exclusion, asks [`Latch::arrive`] on
//! behalf of every caller and reports the end of the elected mutation with
//! [`Latch::resolve`]; waiting and waking are left to that code. What is
//! proved here holds of every order in which callers arrive and mutations
//! end.

use vstd::prelude::*;

verus! {

/// Where a container stands in its one-time mutation.
#[derive(Clone, Copy, PartialEq, Eq, Structural, Debug)]
pub enum Latch {
    /// No mutation has completed and none is running.
    Unmutated,
    /// One caller has been elected and its mutation has not ended yet.
    Electing,
    /// A mutation has completed; the value is frozen.
    Mutated,
    /// The elected mutation panicked. Nothing leaves this state.
    Poisoned,
}

/// What a caller that asks for the mutated value is told to do.
#[derive(Clone, Copy, PartialEq, Eq, Structural, Debug)]
pub enum Admission {
    /// Run the mutation, then report how it ended.
    Elected,
    /// Another caller's mutation is running: wait for it to end and ask
    /// again.
    Wait,
    /// The value is frozen: read it.
    Frozen,
    /// The container is poisoned: fail as the elected caller did.
    Poisoned,
}

/// How the elected caller's mutation ended.
#[derive(Clone, Copy, PartialEq, Eq, Structural, Debug)]
pub enum Outcome {
    /// It returned normally; the value it left is the frozen value.
    Completed,
    /// It reported an error of its own. The container stays usable.
    Failed,
    /// It panicked.
    Panicked,
}

/// Something that happens to a latch.
pub ghost enum Event {
    /// A caller asks for the mutated value.
    Arrival,
    /// The elected caller reports how its mutation ended.
    Resolution(Outcome),
}

/// The events of one election that nobody contends: its caller arrives and
/// then reports how the mutation ended.
pub open spec fn lone_election(outcome: Outcome) -> Seq<Event> {
    seq![Event::Arrival, Event::Resolution(outcome)]
}

impl Latch {
    /// What an arriving caller is told.
    pub open spec fn admission(self) -> Admission {
        match self {
            Latch::Unmutated => Admission::Elected,
            Latch::Electing => Admission::Wait,
            Latch::Mutated => Admission::Frozen,
            Latch::Poisoned => Admission::Poisoned,
        }
    }

    /// The latch after an arrival: the caller that finds it unmutated opens
    /// the election, every other arrival leaves it alone.
    pub open spec fn arrived(self) -> Latch {
        match self {
            Latch::Unmutated => Latch::Electing,
            _ => self,
        }
    }

    /// The latch after the elected mutation has ended with `outcome`. Only
    /// an open election can be resolved; elsewhere the report is void.
    pub open spec fn resolved(self, outcome: Outcome) -> Latch {
        match self {
            Latch::Electing => match outcome {
                Outcome::Completed => Latch::Mutated,
                Outcome::Failed => Latch::Unmutated,
                Outcome::Panicked => Latch::Poisoned,
            },
            _ => self,
        }
    }

    /// The latch after `event`.
    pub open spec fn step(self, event: Event) -> Latch {
        match event {
            Event::Arrival => self.arrived(),
            Event::Resolution(outcome) => self.resolved(outcome),
        }
    }

    /// The latch after `events`, in their order.
    pub open spec fn run(self, events: Seq<Event>) -> Latch
        decreases events.len(),
    {
        if events.len() == 0 {
            self
        } else {
            self.step(events.first()).run(events.drop_first())
        }
    }

    /// Whether `event` elects its caller.
    pub open spec fn elects(self, event: Event) -> bool {
        event is Arrival && self.admission() is Elected
    }

    /// Whether `event` ends an election.
    pub open spec fn settles(self, event: Event) -> bool {
        event is Resolution && self is Electing
    }

    /// Whether `event` freezes the value: it reports a completed mutation
    /// to a latch whose election is open.
    pub open spec fn freezes(self, event: Event) -> bool {
        self is Electing && event == Event::Resolution(Outcome::Completed)
    }

    /// How many callers are elected in the course of `events`.
    pub open spec fn elections(self, events: Seq<Event>) -> nat
        decreases events.len(),
    {
        if events.len() == 0 {
            0
        } else {
            let rest = self.step(events.first()).elections(events.drop_first());
            if self.elects(events.first()) {
                rest + 1
            } else {
                rest
            }
        }
    }

    /// How many elections are ended in the course of `events`.
    pub open spec fn settlements(self, events: Seq<Event>) -> nat
        decreases events.len(),
    {
        if events.len() == 0 {
            0
        } else {
            let rest = self.step(events.first()).settlements(events.drop_first());
            if self.settles(events.first()) {
                rest + 1
            } else {
                rest
            }
        }
    }

    /// How many mutations take effect in the course of `events`.
    pub open spec fn completions(self, events: Seq<Event>) -> nat
        decreases events.len(),
    {
        if events.len() == 0 {
            0
        } else {
            let rest = self.step(events.first()).completions(events.drop_first());
            if self.freezes(events.first()) {
                rest + 1
            } else {
                rest
            }
        }
    }

    /// The latch of a container that was just built.
    pub fn new() -> (latch: Latch)
        ensures
            latch == Latch::Unmutated,
    {
        Latch::Unmutated
    }

    /// Admits a caller: returns the latch as the arrival leaves it and what
    /// the caller has to do.
    pub fn arrive(self) -> (next: (Latch, Admission))
        ensures
            next == (self.arrived(), self.admission()),
    {
        match self {
            Latch::Unmutated => (Latch::Electing, Admission::Elected),
            Latch::Electing => (Latch::Electing, Admission::Wait),
            Latch::Mutated => (Latch::Mutated, Admission::Frozen),
            Latch::Poisoned => (Latch::Poisoned, Admission::Poisoned),
        }
    }

    /// Closes the open election with the way its mutation ended.
    ///
    /// Only the elected caller has anything to report: where no election
    /// is open the report is void and the latch stays as it is.
    pub fn resolve(self, outcome: Outcome) -> (next: Latch)
        ensures
            next == self.resolved(outcome),
    {
        match self {
            Latch::Electing => match outcome {
                Outcome::Completed => Latch::Mutated,
                Outcome::Failed => Latch::Unmutated,
                Outcome::Panicked => Latch::Poisoned,
            },
            _ => self,
        }
    }

    /// Whether the value is frozen and may be read.
    pub fn is_frozen(self) -> (frozen: bool)
        ensures
            frozen == (self is Mutated),
    {
        match self {
            Latch::Mutated => true,
            _ => false,
        }
    }

    /// Whether the elected mutation was reported to have panicked.
    ///
    /// This reads the latch alone. A latch whose election is open is not
    /// poisoned by this account: among callers that share it, the elected
    /// one may still be running. A lock that is held exclusively judges an
    /// open election differently.
    pub fn is_poisoned(self) -> (poisoned: bool)
        ensures
            poisoned == (self is Poisoned),
    {
        match self {
            Latch::Poisoned => true,
            _ => false,
        }
    }
}

/// Once the value is frozen it stays frozen: whatever happens afterwards,
/// nobody is elected, nothing is settled and no further mutation takes
/// effect.
pub proof fn law_frozen_is_final(events: Seq<Event>)
    ensures
        Latch::Mutated.run(events) == Latch::Mutated,
        Latch::Mutated.elections(events) == 0,
        Latch::Mutated.settlements(events) == 0,
        Latch::Mutated.completions(events) == 0,
    decreases events.len(),
{
    if events.len() > 0 {
        law_frozen_is_final(events.drop_first());
    }
}

/// Poison is terminal: a poisoned latch stays poisoned, elects nobody and
/// never freezes a value.
pub proof fn law_poison_is_final(events: Seq<Event>)
    ensures
        Latch::Poisoned.run(events) == Latch::Poisoned,
        Latch::Poisoned.elections(events) == 0,
        Latch::Poisoned.settlements(events) == 0,
        Latch::Poisoned.completions(events) == 0,
    decreases events.len(),
{
    if events.len() > 0 {
        law_poison_is_final(events.drop_first());
    }
}

/// At most one caller is inside an election at any time: on every path
/// the callers elected so far are those whose elections have ended, and one
/// more exactly while an election is open. The count starts at one where the
/// path itself starts inside an election.
pub proof fn law_one_caller_per_election(start: Latch, events: Seq<Event>)
    ensures
        start.elections(events) + (if start is Electing { 1nat } else { 0nat })
            == start.settlements(events) + (if start.run(events) is Electing { 1nat } else { 0nat }),
    decreases events.len(),
{
    if events.len() > 0 {
        law_one_caller_per_election(start.step(events.first()), events.drop_first());
    }
}

/// A value is mutated at most once: on every path from a latch that is not
/// frozen at most one mutation takes effect, and one did exactly if the
/// path ends frozen.
pub proof fn law_mutated_at_most_once(start: Latch, events: Seq<Event>)
    requires
        !(start is Mutated),
    ensures
        start.completions(events) <= 1,
        start.completions(events) == 1 <==> start.run(events) is Mutated,
    decreases events.len(),
{
    if events.len() > 0 {
        let next = start.step(events.first());
        if next is Mutated {
            law_frozen_is_final(events.drop_first());
        } else {
            law_mutated_at_most_once(next, events.drop_first());
        }
    }
}

} // verus!
