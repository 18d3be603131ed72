//! The start-up barrier: a countdown over all sessions of a run. No session
//! begins its workload before every session has subscribed.

use vstd::prelude::*;

verus! {

/// Countdown for a fixed number of parties. Each party arrives once; the
/// barrier opens for all of them when the last one arrives.
#[derive(Clone, Copy, Debug, PartialEq, Eq, Structural)]
pub struct Barrier {
    /// Parties that the barrier waits for.
    pub parties: usize,
    /// Parties that have arrived.
    pub arrived: usize,
}

impl Barrier {
    /// The barrier for `parties` parties, before any has arrived.
    pub open spec fn initial(parties: nat) -> Barrier {
        Barrier { parties: parties as usize, arrived: 0 }
    }

    /// No more parties have arrived than the barrier waits for.
    pub open spec fn wf(&self) -> bool {
        self.arrived <= self.parties
    }

    /// The barrier is open: every party has arrived.
    pub open spec fn released(&self) -> bool {
        self.arrived == self.parties
    }

    /// Parties that are held at the barrier.
    pub open spec fn waiting(&self) -> nat {
        if self.released() {
            0
        } else {
            self.arrived as nat
        }
    }

    /// The barrier after one more party has arrived.
    pub open spec fn next(self) -> Barrier {
        Barrier { arrived: (self.arrived + 1) as usize, ..self }
    }

    /// The barrier for `parties` parties after `arrivals` of them have arrived.
    pub open spec fn after(parties: nat, arrivals: nat) -> Barrier
        decreases arrivals,
    {
        if arrivals == 0 {
            Barrier::initial(parties)
        } else {
            Barrier::after(parties, (arrivals - 1) as nat).next()
        }
    }

    /// Makes the barrier for `parties` parties.
    pub fn new(parties: usize) -> (barrier: Barrier)
        ensures
            barrier == Barrier::initial(parties as nat),
            barrier.wf(),
    {
        Barrier { parties, arrived: 0 }
    }

    /// Tests whether no more parties have arrived than the barrier waits for.
    pub fn check(&self) -> (ok: bool)
        ensures
            ok == self.wf(),
    {
        self.arrived <= self.parties
    }

    /// Whether the barrier is open.
    pub fn is_released(&self) -> (released: bool)
        ensures
            released == self.released(),
    {
        self.arrived == self.parties
    }

    /// Records the arrival of one party and says whether it opened the barrier:
    /// it did if it was the last one, and then nobody is held any more.
    pub fn arrive(&mut self) -> (released: bool)
        requires
            old(self).wf(),
            !old(self).released(),
        ensures
            *final(self) == old(self).next(),
            final(self).wf(),
            released == final(self).released(),
    {
        self.arrived = self.arrived + 1;
        self.arrived == self.parties
    }
}

/// The barrier opens exactly once, and exactly when the last party arrives:
/// while fewer than `parties` have arrived it is closed and holds all who
/// came, and once all have arrived it is open and holds nobody. An open
/// barrier takes no further arrival, so it cannot open a second time.
pub proof fn lemma_released_exactly_when_all_arrived(parties: usize, arrivals: nat)
    requires
        arrivals <= parties,
    ensures
        Barrier::after(parties as nat, arrivals) == (Barrier {
            parties,
            arrived: arrivals as usize,
        }),
        Barrier::after(parties as nat, arrivals).wf(),
        Barrier::after(parties as nat, arrivals).released() <==> arrivals == parties,
        arrivals < parties ==> Barrier::after(parties as nat, arrivals).waiting() == arrivals,
        arrivals == parties ==> Barrier::after(parties as nat, arrivals).waiting() == 0,
    decreases arrivals,
{
    if arrivals > 0 {
        lemma_released_exactly_when_all_arrived(parties, (arrivals - 1) as nat);
    }
}

} // verus!
