//! Counting admission control: bounds the number of in-flight operations.

use vstd::prelude::*;

verus! {

/// The slot counter behind admission control. A run admits an operation by
/// taking a slot and gives the slot back on every exit path of the admitted
/// operation; the scheduler suspends a launch while no slot is free.
pub struct AdmissionGate {
    available: u64,
    limit: u64,
}

impl AdmissionGate {
    /// Slots not currently held.
    pub closed spec fn spec_available(self) -> int {
        self.available as int
    }

    /// The configured concurrency limit.
    pub closed spec fn spec_limit(self) -> int {
        self.limit as int
    }

    /// Operations currently admitted.
    pub open spec fn in_flight(self) -> int {
        self.spec_limit() - self.spec_available()
    }

    /// Well-formedness: the count of free slots is at most the configured
    /// limit (and of course non-negative).
    pub open spec fn wf(self) -> bool {
        0 <= self.spec_available() <= self.spec_limit()
    }

    /// A gate with every slot free.
    pub fn new(limit: u64) -> (r: AdmissionGate)
        requires
            limit >= 1,
        ensures
            r.wf(),
            r.spec_limit() == limit,
            r.spec_available() == limit,
            r.in_flight() == 0,
    {
        AdmissionGate { available: limit, limit }
    }

    /// Takes a slot when one remains; with every slot held the launch
    /// suspends until one returns.
    pub fn try_acquire(&mut self) -> (r: bool)
        requires
            old(self).wf(),
        ensures
            final(self).wf(),
            final(self).spec_limit() == old(self).spec_limit(),
            r <==> old(self).spec_available() > 0,
            r ==> final(self).spec_available() == old(self).spec_available() - 1,
            r ==> final(self).in_flight() == old(self).in_flight() + 1,
            !r ==> *final(self) == *old(self),
            final(self).in_flight() <= final(self).spec_limit(),
    {
        if self.available > 0 {
            self.available = self.available - 1;
            true
        } else {
            false
        }
    }

    /// Gives one slot back; owed exactly once per successful acquire, on
    /// every exit path of the admitted operation, success or failure.
    pub fn release(&mut self)
        requires
            old(self).wf(),
            old(self).in_flight() > 0,
        ensures
            final(self).wf(),
            final(self).spec_limit() == old(self).spec_limit(),
            final(self).spec_available() == old(self).spec_available() + 1,
            final(self).in_flight() == old(self).in_flight() - 1,
    {
        self.available = self.available + 1;
    }
}

/// Law of admission: in every well-formed gate state, the number of in-flight
/// operations lies between zero and the configured limit; acquires and
/// releases preserve well-formedness, so no interleaving of them exceeds the
/// limit.
pub proof fn lemma_in_flight_bounded(g: AdmissionGate)
    requires
        g.wf(),
    ensures
        0 <= g.in_flight() <= g.spec_limit(),
{
}

/// One admission-control event of a run, in the order the slot counter saw
/// them.
pub enum GateEvent {
    /// A launch took a slot (it waited first if none was free).
    Acquire,
    /// A finished operation gave its slot back.
    Release,
}

/// The number of operations in flight after a run's admission events, as the
/// gate's contracts admit them: an acquire proceeds only below the limit and
/// a release only above zero, exactly the conditions `try_acquire` and
/// `release` enforce.
pub open spec fn in_flight_after(limit: int, events: Seq<GateEvent>) -> int
    decreases events.len(),
{
    if events.len() == 0 {
        0
    } else {
        let prev = in_flight_after(limit, events.drop_last());
        match events.last() {
            GateEvent::Acquire => if prev < limit {
                prev + 1
            } else {
                prev
            },
            GateEvent::Release => if prev > 0 {
                prev - 1
            } else {
                prev
            },
        }
    }
}

/// Law of concurrency: for every concurrency limit of at least one and every
/// interleaving of admissions and releases, the number of operations in
/// flight never leaves the band from zero to the limit.
pub proof fn lemma_no_interleaving_exceeds_limit(limit: int, events: Seq<GateEvent>)
    requires
        limit >= 1,
    ensures
        0 <= in_flight_after(limit, events) <= limit,
    decreases events.len(),
{
    if events.len() > 0 {
        lemma_no_interleaving_exceeds_limit(limit, events.drop_last());
    }
}

} // verus!
